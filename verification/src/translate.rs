//! From build options to the packaging tool's argument list.

use vstd::prelude::*;
use crate::config::{BuildConfig, ConfigView, config_from_json, json_config};
use crate::error::BuildError;
use crate::json::json_of;
use crate::text::{texts, opt_text, decimal, decimal_text, same_text, lemma_texts_push};

verus! {

/// The window width that the tool assumes when none is given.
pub const DEFAULT_WIDTH: u64 = 1200;

/// The window height that the tool assumes when none is given.
pub const DEFAULT_HEIGHT: u64 = 780;

/// The target set that the tool assumes when none is given.
pub open spec fn default_targets() -> Seq<char> {
    "all"@
}

/// The values that the tool assumes for options that are not given. An
/// option equal to its default is not passed on.
pub struct Defaults {
    pub width: u64,
    pub height: u64,
    pub targets: String,
}

impl Defaults {
    /// The defaults of the packaging tool as it is released.
    pub fn standard() -> (r: Defaults)
        ensures
            r.width == DEFAULT_WIDTH,
            r.height == DEFAULT_HEIGHT,
            r.targets@ == default_targets(),
    {
        Defaults { width: DEFAULT_WIDTH, height: DEFAULT_HEIGHT, targets: "all".to_owned() }
    }
}

/// A flag with a text value: left out where the value is absent or empty.
pub open spec fn text_flag(flag: Seq<char>, value: Option<Seq<char>>) -> Seq<Seq<char>> {
    match value {
        Some(v) => if v.len() > 0 {
            seq![flag, v]
        } else {
            Seq::empty()
        },
        None => Seq::empty(),
    }
}

/// A flag with a text value that has a default: left out where the value is
/// absent or equal to the default.
pub open spec fn choice_flag(flag: Seq<char>, value: Option<Seq<char>>, default: Seq<char>) -> Seq<
    Seq<char>,
> {
    match value {
        Some(v) => if v != default {
            seq![flag, v]
        } else {
            Seq::empty()
        },
        None => Seq::empty(),
    }
}

/// A flag with a numeric value: left out where the value is absent or equal
/// to the default.
pub open spec fn number_flag(flag: Seq<char>, value: Option<u64>, default: u64) -> Seq<Seq<char>> {
    match value {
        Some(v) => if v != default {
            seq![flag, decimal_text(v as nat)]
        } else {
            Seq::empty()
        },
        None => Seq::empty(),
    }
}

/// A bare flag: present where the switch is on.
pub open spec fn switch_flag(flag: Seq<char>, on: bool) -> Seq<Seq<char>> {
    if on {
        seq![flag]
    } else {
        Seq::empty()
    }
}

/// A flag repeated once for each value, each time followed by the value.
pub open spec fn repeated_flag(flag: Seq<char>, values: Seq<Seq<char>>) -> Seq<Seq<char>>
    decreases values.len(),
{
    if values.len() == 0 {
        Seq::empty()
    } else {
        repeated_flag(flag, values.drop_last()) + seq![flag, values.last()]
    }
}

/// The argument list for a configuration whose source is `url`, under the
/// tool's released defaults.
pub open spec fn args_from(url: Seq<char>, c: ConfigView) -> Seq<Seq<char>> {
    args_under(url, c, DEFAULT_WIDTH, DEFAULT_HEIGHT, default_targets())
}

/// The argument list for a configuration whose source is `url`: the source
/// first, then the options in the order in which the tool is given them.
pub open spec fn args_under(
    url: Seq<char>,
    c: ConfigView,
    width: u64,
    height: u64,
    targets: Seq<char>,
) -> Seq<Seq<char>> {
    seq![url] + text_flag("--name"@, c.name) + text_flag("--icon"@, c.icon) + number_flag(
        "--width"@,
        c.width,
        width,
    ) + number_flag("--height"@, c.height, height) + switch_flag(
        "--use-local-file"@,
        c.use_local_file,
    ) + switch_flag("--fullscreen"@, c.fullscreen) + switch_flag(
        "--hide-title-bar"@,
        c.hide_title_bar,
    ) + switch_flag("--multi-arch"@, c.multi_arch) + switch_flag("--debug"@, c.debug) + text_flag(
        "--activation-shortcut"@,
        c.activation_shortcut,
    ) + switch_flag("--always-on-top"@, c.always_on_top) + choice_flag(
        "--targets"@,
        c.targets,
        targets,
    ) + text_flag("--user-agent"@, c.user_agent) + switch_flag(
        "--show-system-tray"@,
        c.show_system_tray,
    ) + text_flag("--system-tray-icon"@, c.system_tray_icon) + repeated_flag(
        "--inject"@,
        c.inject,
    ) + repeated_flag("--safe-domain"@, c.safe_domain)
}

/// The whole argument list under the tool's released defaults; `None`
/// where the configuration names no source.
pub open spec fn command_args(c: ConfigView) -> Option<Seq<Seq<char>>> {
    match c.url {
        Some(url) => Some(args_from(url, c)),
        None => None,
    }
}

/// The whole argument list under the given defaults; `None` where the
/// configuration names no source.
pub open spec fn command_args_under(c: ConfigView, d: Defaults) -> Option<Seq<Seq<char>>> {
    match c.url {
        Some(url) => Some(args_under(url, c, d.width, d.height, d.targets@)),
        None => None,
    }
}

fn push_pair(args: &mut Vec<String>, flag: &str, value: String)
    ensures
        texts(final(args)@) == texts(old(args)@) + seq![flag@, value@],
{
    let first: String = flag.to_owned();
    proof {
        lemma_texts_push(args@, first);
        lemma_texts_push(args@.push(first), value);
    }
    args.push(first);
    args.push(value);
    assert(texts(args@) =~= texts(old(args)@) + seq![flag@, value@]);
}

fn push_text(args: &mut Vec<String>, flag: &str, value: &Option<String>)
    ensures
        texts(final(args)@) == texts(old(args)@) + text_flag(flag@, opt_text(*value)),
{
    match value {
        Some(v) => {
            if !v.as_str().is_empty() {
                push_pair(args, flag, v.clone());
            } else {
                assert(texts(args@) =~= texts(args@) + Seq::<Seq<char>>::empty());
            }
        },
        None => {
            assert(texts(args@) =~= texts(args@) + Seq::<Seq<char>>::empty());
        },
    }
}

fn push_choice(args: &mut Vec<String>, flag: &str, value: &Option<String>, default: &str)
    ensures
        texts(final(args)@) == texts(old(args)@) + choice_flag(flag@, opt_text(*value), default@),
{
    match value {
        Some(v) => {
            if !same_text(v.as_str(), default) {
                push_pair(args, flag, v.clone());
            } else {
                assert(texts(args@) =~= texts(args@) + Seq::<Seq<char>>::empty());
            }
        },
        None => {
            assert(texts(args@) =~= texts(args@) + Seq::<Seq<char>>::empty());
        },
    }
}

fn push_number(args: &mut Vec<String>, flag: &str, value: Option<u64>, default: u64)
    ensures
        texts(final(args)@) == texts(old(args)@) + number_flag(flag@, value, default),
{
    match value {
        Some(v) => {
            if v != default {
                push_pair(args, flag, decimal(v));
            } else {
                assert(texts(args@) =~= texts(args@) + Seq::<Seq<char>>::empty());
            }
        },
        None => {
            assert(texts(args@) =~= texts(args@) + Seq::<Seq<char>>::empty());
        },
    }
}

fn push_switch(args: &mut Vec<String>, flag: &str, on: bool)
    ensures
        texts(final(args)@) == texts(old(args)@) + switch_flag(flag@, on),
{
    if on {
        let owned: String = flag.to_owned();
        proof {
            lemma_texts_push(args@, owned);
        }
        args.push(owned);
        assert(texts(args@) =~= texts(old(args)@) + seq![flag@]);
    } else {
        assert(texts(args@) =~= texts(args@) + Seq::<Seq<char>>::empty());
    }
}

fn push_repeated(args: &mut Vec<String>, flag: &str, values: &Vec<String>)
    ensures
        texts(final(args)@) == texts(old(args)@) + repeated_flag(flag@, texts(values@)),
{
    let mut i: usize = 0;
    assert(texts(values@.take(0)) =~= Seq::<Seq<char>>::empty());
    assert(texts(args@) =~= texts(args@) + Seq::<Seq<char>>::empty());
    while i < values.len()
        invariant
            i <= values.len(),
            texts(args@) == texts(old(args)@) + repeated_flag(
                flag@,
                texts(values@.take(i as int)),
            ),
        decreases values.len() - i,
    {
        let ghost done = repeated_flag(flag@, texts(values@.take(i as int)));
        proof {
            let next = texts(values@.take(i + 1));
            assert(next.drop_last() =~= texts(values@.take(i as int)));
            assert(next.last() == values@[i as int]@);
        }
        push_pair(args, flag, values[i].clone());
        assert(texts(args@) =~= texts(old(args)@) + (done + seq![flag@, values@[i as int]@]));
        i = i + 1;
    }
    assert(values@.take(i as int) =~= values@);
}

/// Builds the packaging tool's argument list from the build options.
///
/// Fails, before anything else is looked at, where the options name no
/// source. Otherwise the list starts with the source; each option follows as
/// its flag, or as its flag and value, unless it is absent, empty, switched
/// off or equal to the tool's default.
pub fn build_args(c: &BuildConfig) -> (r: Result<Vec<String>, BuildError>)
    ensures
        match r {
            Ok(args) => command_args(c@) == Some(texts(args@)),
            Err(e) => command_args(c@).is_none() && e == BuildError::MissingUrl,
        },
{
    let d: Defaults = Defaults::standard();
    build_args_under(c, &d)
}

/// Builds the argument list as [`build_args`] does, leaving out the options
/// that equal the given defaults.
pub fn build_args_under(c: &BuildConfig, d: &Defaults) -> (r: Result<Vec<String>, BuildError>)
    ensures
        match r {
            Ok(args) => command_args_under(c@, *d) == Some(texts(args@)),
            Err(e) => command_args_under(c@, *d).is_none() && e == BuildError::MissingUrl,
        },
{
    let mut args: Vec<String> = Vec::new();
    match &c.url {
        Some(url) => {
            let owned: String = url.clone();
            proof {
                lemma_texts_push(args@, owned);
            }
            args.push(owned);
            assert(texts(args@) =~= seq![url@]);
        },
        None => {
            return Err(BuildError::MissingUrl);
        },
    }
    push_text(&mut args, "--name", &c.name);
    push_text(&mut args, "--icon", &c.icon);
    push_number(&mut args, "--width", c.width, d.width);
    push_number(&mut args, "--height", c.height, d.height);
    push_switch(&mut args, "--use-local-file", c.use_local_file);
    push_switch(&mut args, "--fullscreen", c.fullscreen);
    push_switch(&mut args, "--hide-title-bar", c.hide_title_bar);
    push_switch(&mut args, "--multi-arch", c.multi_arch);
    push_switch(&mut args, "--debug", c.debug);
    push_text(&mut args, "--activation-shortcut", &c.activation_shortcut);
    push_switch(&mut args, "--always-on-top", c.always_on_top);
    push_choice(&mut args, "--targets", &c.targets, d.targets.as_str());
    push_text(&mut args, "--user-agent", &c.user_agent);
    push_switch(&mut args, "--show-system-tray", c.show_system_tray);
    push_text(&mut args, "--system-tray-icon", &c.system_tray_icon);
    push_repeated(&mut args, "--inject", &c.inject);
    push_repeated(&mut args, "--safe-domain", &c.safe_domain);
    Ok(args)
}

/// Builds the argument list straight from a JSON document of build options.
pub fn translate(doc: &serde_json::Value) -> (r: Result<Vec<String>, BuildError>)
    ensures
        match r {
            Ok(args) => command_args(json_config(json_of(*doc))) == Some(texts(args@)),
            Err(e) => command_args(json_config(json_of(*doc))).is_none() && e == BuildError::MissingUrl,
        },
{
    let c: BuildConfig = config_from_json(doc);
    build_args(&c)
}

} // verus!
