//! The tools that a build needs: how a probe's findings become a status, and
//! which command installs a tool or opens a path on each platform.

use vstd::prelude::*;
use crate::text::{texts, same_text};

verus! {

/// The platforms that the commands differ on.
#[derive(Clone, Copy, Debug, PartialEq, Eq, Structural)]
pub enum Platform {
    Windows,
    MacOs,
    Linux,
    Other,
}

/// What is known of one tool: `status` is `"ok"` or `"error"`.
pub struct EnvironmentStatus {
    pub status: String,
    pub version: Option<String>,
    pub path: Option<String>,
}

/// The prober of the build environment. It holds no state.
pub struct EnvironmentChecker;

/// A command to run: the program, then its arguments.
pub struct Launch {
    pub line: Vec<String>,
}

impl View for Launch {
    type V = Seq<Seq<char>>;

    open spec fn view(&self) -> Seq<Seq<char>> {
        texts(self.line@)
    }
}

/// Why no command installs a tool.
#[derive(Debug)]
pub enum EnvError {
    /// The name is not that of a tool the build needs.
    UnknownTool(String),
    /// The tool is installed through `bun`, which is not there.
    NoInstaller,
}

/// The texts held by a list of string slices.
pub open spec fn slice_texts(v: Seq<&'static str>) -> Seq<Seq<char>> {
    Seq::new(v.len(), |i: int| v[i]@)
}

/// The command that opens `target` with the platform's default handler.
pub open spec fn open_with_default(platform: Platform, target: Seq<char>) -> Option<
    Seq<Seq<char>>,
> {
    match platform {
        Platform::Windows => Some(seq!["explorer"@, target]),
        Platform::MacOs => Some(seq!["open"@, target]),
        Platform::Linux => Some(seq!["xdg-open"@, target]),
        Platform::Other => None,
    }
}

/// The command that shows a web page in the platform's browser.
pub open spec fn browse(platform: Platform, page: Seq<char>) -> Option<Seq<Seq<char>>> {
    match platform {
        Platform::Windows => Some(seq!["cmd"@, "/c"@, "start"@, page]),
        Platform::MacOs => Some(seq!["open"@, page]),
        Platform::Linux => Some(seq!["xdg-open"@, page]),
        Platform::Other => None,
    }
}

/// Whether `tool` names a tool that the build needs.
pub open spec fn known_tool(tool: Seq<char>) -> bool {
    tool == "nodejs"@ || tool == "bunjs"@ || tool == "rust"@ || tool == "pake"@ || tool
        == "visualStudio"@
}

/// The command that installs `tool`: `None` where the platform has nothing
/// to run for it, or the name is not that of a tool.
pub open spec fn install_line(tool: Seq<char>, platform: Platform) -> Option<Seq<Seq<char>>> {
    if tool == "nodejs"@ {
        browse(platform, "https://nodejs.org"@)
    } else if tool == "bunjs"@ {
        if platform == Platform::Windows {
            Some(seq!["powershell"@, "-c"@, "irm bun.sh/install.ps1 | iex"@])
        } else {
            Some(seq!["curl"@, "-fsSL"@, "https://bun.sh/install"@, "|"@, "bash"@])
        }
    } else if tool == "rust"@ {
        if platform == Platform::Windows {
            Some(seq!["cmd"@, "/c"@, "start"@, "https://rustup.rs"@])
        } else {
            Some(
                seq![
                    "curl"@,
                    "--proto"@,
                    "=https"@,
                    "--tlsv1.2"@,
                    "-sSf"@,
                    "https://sh.rustup.rs"@,
                    "|"@,
                    "sh"@,
                ],
            )
        }
    } else if tool == "pake"@ {
        Some(seq!["bun"@, "install"@, "-g"@, "pake-cli"@])
    } else if tool == "visualStudio"@ && platform == Platform::Windows {
        Some(
            seq![
                "cmd"@,
                "/c"@,
                "start"@,
                "https://visualstudio.microsoft.com/downloads/#build-tools-for-visual-studio-2022"@,
            ],
        )
    } else {
        None
    }
}

/// The program whose presence and version show that `tool` is installed;
/// `None` for a tool that is not probed by running a program.
pub open spec fn probe_program_text(tool: Seq<char>) -> Option<Seq<char>> {
    if tool == "nodejs"@ {
        Some("node"@)
    } else if tool == "bunjs"@ {
        Some("bun"@)
    } else if tool == "rust"@ {
        Some("rustc"@)
    } else if tool == "pake"@ {
        Some("pake"@)
    } else {
        None
    }
}

/// The names of the tools in the order in which they are probed.
pub open spec fn tool_name_texts() -> Seq<Seq<char>> {
    seq!["nodejs"@, "bunjs"@, "rust"@, "visualStudio"@, "pake"@]
}

/// The directories in which the Visual Studio build tools are looked for,
/// in order of preference.
pub open spec fn visual_studio_dir_texts() -> Seq<Seq<char>> {
    seq![
        "C:\\Program Files (x86)\\Microsoft Visual Studio\\2022\\BuildTools"@,
        "C:\\Program Files (x86)\\Microsoft Visual Studio\\2019\\BuildTools"@,
        "C:\\Program Files\\Microsoft Visual Studio\\2022\\Community"@,
        "C:\\Program Files\\Microsoft Visual Studio\\2019\\Community"@,
    ]
}

/// Whether `at` is the place of the first `true` in `present`, or `None`
/// where there is none.
pub open spec fn is_first_present(present: Seq<bool>, at: Option<usize>) -> bool {
    match at {
        Some(i) => i < present.len() && present[i as int] && forall|k: int|
            0 <= k < i ==> !present[k],
        None => forall|k: int| 0 <= k < present.len() ==> !present[k],
    }
}

/// Finds the first candidate that is present.
pub fn first_present(present: &Vec<bool>) -> (r: Option<usize>)
    ensures
        is_first_present(present@, r),
{
    let mut i: usize = 0;
    while i < present.len()
        invariant
            i <= present.len(),
            forall|k: int| 0 <= k < i ==> !present@[k],
        decreases present.len() - i,
    {
        if present[i] {
            return Some(i);
        }
        i = i + 1;
    }
    None
}

/// The name `pake` differs from the names of the other tools.
proof fn lemma_pake_is_no_other_tool()
    ensures
        "pake"@ != "nodejs"@,
        "pake"@ != "bunjs"@,
        "pake"@ != "rust"@,
        "pake"@ != "visualStudio"@,
{
    reveal_strlit("pake");
    reveal_strlit("nodejs");
    reveal_strlit("bunjs");
    reveal_strlit("rust");
    reveal_strlit("visualStudio");
    assert("pake"@[0] != "rust"@[0]);
}

/// Copies a list of words into owned strings.
pub fn words(parts: Vec<&'static str>) -> (r: Vec<String>)
    ensures
        texts(r@) == slice_texts(parts@),
{
    let mut out: Vec<String> = Vec::new();
    let mut i: usize = 0;
    while i < parts.len()
        invariant
            i <= parts.len(),
            out@.len() == i,
            forall|k: int| 0 <= k < i ==> out@[k]@ == parts@[k]@,
        decreases parts.len() - i,
    {
        out.push(parts[i].to_owned());
        i = i + 1;
    }
    assert(texts(out@) =~= slice_texts(parts@));
    out
}

fn launch_of(parts: Vec<&'static str>) -> (r: Launch)
    ensures
        r@ == slice_texts(parts@),
{
    Launch { line: words(parts) }
}

fn launch_with(parts: Vec<&'static str>, last: &str) -> (r: Launch)
    ensures
        r@ == slice_texts(parts@).push(last@),
{
    let mut line: Vec<String> = words(parts);
    let ghost before = line@;
    line.push(last.to_owned());
    assert(texts(line@) =~= texts(before).push(last@));
    Launch { line }
}

/// The command that opens a file or directory with the platform's default
/// handler; `None` on a platform that has none.
pub fn open_path(platform: Platform, path: &str) -> (r: Option<Launch>)
    ensures
        match r {
            Some(l) => open_with_default(platform, path@) == Some(l@),
            None => open_with_default(platform, path@).is_none(),
        },
{
    match platform {
        Platform::Windows => {
            let l: Launch = launch_with(vec!["explorer"], path);
            assert(l@ =~= seq!["explorer"@, path@]);
            Some(l)
        },
        Platform::MacOs => {
            let l: Launch = launch_with(vec!["open"], path);
            assert(l@ =~= seq!["open"@, path@]);
            Some(l)
        },
        Platform::Linux => {
            let l: Launch = launch_with(vec!["xdg-open"], path);
            assert(l@ =~= seq!["xdg-open"@, path@]);
            Some(l)
        },
        Platform::Other => None,
    }
}

fn browse_page(platform: Platform, page: &'static str) -> (r: Option<Launch>)
    ensures
        match r {
            Some(l) => browse(platform, page@) == Some(l@),
            None => browse(platform, page@).is_none(),
        },
{
    match platform {
        Platform::Windows => {
            let l: Launch = launch_of(vec!["cmd", "/c", "start", page]);
            assert(l@ =~= seq!["cmd"@, "/c"@, "start"@, page@]);
            Some(l)
        },
        Platform::MacOs => {
            let l: Launch = launch_of(vec!["open", page]);
            assert(l@ =~= seq!["open"@, page@]);
            Some(l)
        },
        Platform::Linux => {
            let l: Launch = launch_of(vec!["xdg-open", page]);
            assert(l@ =~= seq!["xdg-open"@, page@]);
            Some(l)
        },
        Platform::Other => None,
    }
}

impl EnvironmentChecker {
    /// A prober.
    pub fn new() -> (r: EnvironmentChecker)
        ensures
            r == EnvironmentChecker,
    {
        EnvironmentChecker
    }

    /// The names of the tools, in the order in which they are probed.
    pub fn tool_names(&self) -> (r: Vec<String>)
        ensures
            texts(r@) == tool_name_texts(),
    {
        let names: Vec<String> = words(vec!["nodejs", "bunjs", "rust", "visualStudio", "pake"]);
        assert(texts(names@) =~= tool_name_texts());
        names
    }

    /// The program to look for and to ask for its version, for a tool that
    /// is probed that way.
    pub fn probe_program(&self, tool: &str) -> (r: Option<&'static str>)
        ensures
            match r {
                Some(p) => probe_program_text(tool@) == Some(p@),
                None => probe_program_text(tool@).is_none(),
            },
    {
        if same_text(tool, "nodejs") {
            Some("node")
        } else if same_text(tool, "bunjs") {
            Some("bun")
        } else if same_text(tool, "rust") {
            Some("rustc")
        } else if same_text(tool, "pake") {
            Some("pake")
        } else {
            None
        }
    }

    /// The status of a tool that is probed by running it: `found` is where
    /// the program lies, if it is on the search path, and `version` what it
    /// printed when asked for its version, if it ran. Both are needed for
    /// `"ok"`; anything less is `"error"`, with neither version nor path.
    pub fn probe_status(&self, found: Option<String>, version: Option<String>) -> (r:
        EnvironmentStatus)
        ensures
            found.is_some() && version.is_some() ==> r.status@ == "ok"@ && r.version == version
                && r.path == found,
            !(found.is_some() && version.is_some()) ==> r.status@ == "error"@
                && r.version.is_none() && r.path.is_none(),
    {
        match (found, version) {
            (Some(p), Some(v)) => EnvironmentStatus {
                status: "ok".to_owned(),
                version: Some(v),
                path: Some(p),
            },
            _ => EnvironmentStatus { status: "error".to_owned(), version: None, path: None },
        }
    }

    /// The directories in which the Visual Studio build tools are looked
    /// for, in order of preference.
    pub fn visual_studio_dirs(&self) -> (r: Vec<String>)
        ensures
            texts(r@) == visual_studio_dir_texts(),
    {
        let dirs: Vec<String> = words(
            vec![
                "C:\\Program Files (x86)\\Microsoft Visual Studio\\2022\\BuildTools",
                "C:\\Program Files (x86)\\Microsoft Visual Studio\\2019\\BuildTools",
                "C:\\Program Files\\Microsoft Visual Studio\\2022\\Community",
                "C:\\Program Files\\Microsoft Visual Studio\\2019\\Community",
            ],
        );
        assert(texts(dirs@) =~= visual_studio_dir_texts());
        dirs
    }

    /// The status of the Visual Studio build tools. They are needed on
    /// Windows only, where `found` is the first of their directories that
    /// exists, if any.
    pub fn visual_studio_status(&self, platform: Platform, found: Option<String>) -> (r:
        EnvironmentStatus)
        ensures
            platform != Platform::Windows ==> r.status@ == "ok"@ && r.path.is_none() && (match r.version {
                Some(v) => v@ == "Not required on this platform"@,
                None => false,
            }),
            platform == Platform::Windows && found.is_some() ==> r.status@ == "ok"@ && r.path
                == found && (match r.version {
                Some(v) => v@ == "Found"@,
                None => false,
            }),
            platform == Platform::Windows && found.is_none() ==> r.status@ == "error"@
                && r.version.is_none() && r.path.is_none(),
    {
        match platform {
            Platform::Windows => match found {
                Some(p) => EnvironmentStatus {
                    status: "ok".to_owned(),
                    version: Some("Found".to_owned()),
                    path: Some(p),
                },
                None => EnvironmentStatus { status: "error".to_owned(), version: None, path: None },
            },
            _ => EnvironmentStatus {
                status: "ok".to_owned(),
                version: Some("Not required on this platform".to_owned()),
                path: None,
            },
        }
    }

    /// The command that installs `tool`, or `None` where the platform has
    /// nothing to run for it. An unknown name is refused; so is `pake`
    /// where `bun`, which installs it, is not there.
    pub fn install_tool(&self, tool: &str, platform: Platform, has_bun: bool) -> (r: Result<
        Option<Launch>,
        EnvError,
    >)
        ensures
            match r {
                Ok(Some(l)) => known_tool(tool@) && (tool@ == "pake"@ ==> has_bun)
                    && install_line(tool@, platform) == Some(l@),
                Ok(None) => known_tool(tool@) && (tool@ == "pake"@ ==> has_bun)
                    && install_line(tool@, platform).is_none(),
                Err(EnvError::UnknownTool(name)) => !known_tool(tool@) && name@ == tool@,
                Err(EnvError::NoInstaller) => tool@ == "pake"@ && !has_bun,
            },
    {
        proof {
            lemma_pake_is_no_other_tool();
        }
        if same_text(tool, "nodejs") {
            Ok(browse_page(platform, "https://nodejs.org"))
        } else if same_text(tool, "bunjs") {
            let l: Launch = match platform {
                Platform::Windows => launch_of(
                    vec!["powershell", "-c", "irm bun.sh/install.ps1 | iex"],
                ),
                _ => launch_of(vec!["curl", "-fsSL", "https://bun.sh/install", "|", "bash"]),
            };
            assert(install_line(tool@, platform) =~= Some(l@));
            Ok(Some(l))
        } else if same_text(tool, "rust") {
            let l: Launch = match platform {
                Platform::Windows => launch_of(vec!["cmd", "/c", "start", "https://rustup.rs"]),
                _ => launch_of(
                    vec![
                        "curl",
                        "--proto",
                        "=https",
                        "--tlsv1.2",
                        "-sSf",
                        "https://sh.rustup.rs",
                        "|",
                        "sh",
                    ],
                ),
            };
            assert(install_line(tool@, platform) =~= Some(l@));
            Ok(Some(l))
        } else if same_text(tool, "pake") {
            if has_bun {
                let l: Launch = launch_of(vec!["bun", "install", "-g", "pake-cli"]);
                assert(install_line(tool@, platform) =~= Some(l@));
                Ok(Some(l))
            } else {
                Err(EnvError::NoInstaller)
            }
        } else if same_text(tool, "visualStudio") {
            match platform {
                Platform::Windows => {
                    let l: Launch = launch_of(
                        vec![
                            "cmd",
                            "/c",
                            "start",
                            "https://visualstudio.microsoft.com/downloads/#build-tools-for-visual-studio-2022",
                        ],
                    );
                    assert(install_line(tool@, platform) =~= Some(l@));
                    Ok(Some(l))
                },
                _ => Ok(None),
            }
        } else {
            Err(EnvError::UnknownTool(tool.to_owned()))
        }
    }
}

} // verus!
