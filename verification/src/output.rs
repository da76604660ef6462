//! Where the bundle of a finished build is looked for.

use vstd::prelude::*;
use crate::config::{read_text, text_field};
use crate::json::{Json, json_of};
use crate::registry::{Project, ProjectManager, StorePath};
use crate::text::{texts, opt_text, lemma_texts_push};

verus! {

/// Whether `s` begins with `prefix`.
pub open spec fn begins_with(s: Seq<char>, prefix: Seq<char>) -> bool {
    prefix.len() <= s.len() && s.subrange(0, prefix.len() as int) == prefix
}

/// Whether a source is fetched from the web rather than read from a file.
pub open spec fn is_web_source(url: Seq<char>) -> bool {
    begins_with(url, "http"@)
}

/// The name of the bundle: for a web source the configured name; for a
/// file the file's stem, or the configured name where it has none. The
/// configured name is `app` where none is given.
pub open spec fn output_name_text(
    url: Seq<char>,
    name: Option<Seq<char>>,
    stem: Option<Seq<char>>,
) -> Seq<char> {
    let fallback = match name {
        Some(n) => n,
        None => "app"@,
    };
    if is_web_source(url) {
        fallback
    } else {
        match stem {
            Some(s) => s,
            None => fallback,
        }
    }
}

/// The file names under which a bundle called `name` may lie, in the order
/// in which they are tried.
pub open spec fn bundle_names(name: Seq<char>) -> Seq<Seq<char>> {
    seq![name + ".app"@, name + ".exe"@, name]
}

/// The paths under which the bundle of a record may lie, in the order in
/// which they are tried; none where the record's configuration names no
/// source. `stem` is the stem of the source taken as a file path.
pub open spec fn candidate_paths(
    dir: Seq<Seq<char>>,
    config: Json,
    stem: Option<Seq<char>>,
) -> Seq<Seq<Seq<char>>> {
    match text_field(config, "url"@) {
        Some(url) => {
            let name = output_name_text(url, text_field(config, "name"@), stem);
            Seq::new(3, |i: int| dir.push(bundle_names(name)[i]))
        },
        None => Seq::empty(),
    }
}

/// The values of a list of paths.
pub open spec fn path_views(v: Seq<StorePath>) -> Seq<Seq<Seq<char>>> {
    Seq::new(v.len(), |i: int| v[i]@)
}

/// Tests whether `s` begins with `prefix`.
pub fn has_prefix(s: &str, prefix: &str) -> (r: bool)
    ensures
        r == begins_with(s@, prefix@),
{
    let n: usize = prefix.unicode_len();
    if n > s.unicode_len() {
        return false;
    }
    let mut i: usize = 0;
    while i < n
        invariant
            i <= n,
            n == prefix@.len(),
            n <= s@.len(),
            forall|k: int| 0 <= k < i ==> s@[k] == prefix@[k],
        decreases n - i,
    {
        if s.get_char(i) != prefix.get_char(i) {
            assert(s@.subrange(0, n as int)[i as int] != prefix@[i as int]);
            return false;
        }
        i = i + 1;
    }
    assert(s@.subrange(0, n as int) =~= prefix@);
    true
}

/// Names the bundle of a build.
pub fn output_name(url: &str, name: Option<String>, stem: Option<String>) -> (r: String)
    ensures
        r@ == output_name_text(url@, opt_text(name), opt_text(stem)),
{
    let fallback: String = match name {
        Some(n) => n,
        None => "app".to_owned(),
    };
    if has_prefix(url, "http") {
        fallback
    } else {
        match stem {
            Some(s) => s,
            None => fallback,
        }
    }
}

fn child(dir: &StorePath, name: String) -> (r: StorePath)
    ensures
        r@ == dir@.push(name@),
{
    let mut components: Vec<String> = dir.components.clone();
    assert(components@ =~= dir.components@);
    proof {
        lemma_texts_push(components@, name);
    }
    components.push(name);
    StorePath { components }
}

/// The source of a record's build, where its configuration names one.
pub fn source_of(project: &Project) -> (r: Option<String>)
    ensures
        opt_text(r) == text_field(json_of(project.config), "url"@),
{
    read_text(&project.config, "url")
}

/// Lists the paths under which the bundle of a record may lie. The caller
/// looks for them in order and takes the first that exists.
pub fn output_candidates(manager: &ProjectManager, project: &Project, stem: Option<String>) -> (r:
    Vec<StorePath>)
    ensures
        path_views(r@) == candidate_paths(
            manager.root().push(project.id@),
            json_of(project.config),
            opt_text(stem),
        ),
{
    let mut out: Vec<StorePath> = Vec::new();
    match read_text(&project.config, "url") {
        Some(url) => {
            let name: String = output_name(
                url.as_str(),
                read_text(&project.config, "name"),
                stem,
            );
            let dir: StorePath = manager.get_project_path(project.id.as_str());
            out.push(child(&dir, name.clone().concat(".app")));
            out.push(child(&dir, name.clone().concat(".exe")));
            out.push(child(&dir, name));
            assert(path_views(out@) =~= candidate_paths(
                manager.root().push(project.id@),
                json_of(project.config),
                opt_text(stem),
            ));
        },
        None => {
            assert(path_views(out@) =~= Seq::<Seq<Seq<char>>>::empty());
        },
    }
    out
}

} // verus!
