//! The build options that the packaging tool understands, as a typed record,
//! and how they are read from a JSON document.

use vstd::prelude::*;
use crate::json::{Json, json_of, jsons, member_in, text_in, count_in, flag_in, items_in};
use crate::json::{member, text_of, number_of, flag_of, items_of};
use crate::text::{texts, opt_text, lemma_texts_push};

verus! {

/// The options of one build. An absent text or number is `None`; an absent
/// switch is `false`; an absent list is empty.
pub struct BuildConfig {
    pub url: Option<String>,
    pub name: Option<String>,
    pub icon: Option<String>,
    pub width: Option<u64>,
    pub height: Option<u64>,
    pub use_local_file: bool,
    pub fullscreen: bool,
    pub hide_title_bar: bool,
    pub multi_arch: bool,
    pub debug: bool,
    pub activation_shortcut: Option<String>,
    pub always_on_top: bool,
    pub targets: Option<String>,
    pub user_agent: Option<String>,
    pub show_system_tray: bool,
    pub system_tray_icon: Option<String>,
    pub inject: Vec<String>,
    pub safe_domain: Vec<String>,
}

/// The mathematical value of a [`BuildConfig`].
pub ghost struct ConfigView {
    pub url: Option<Seq<char>>,
    pub name: Option<Seq<char>>,
    pub icon: Option<Seq<char>>,
    pub width: Option<u64>,
    pub height: Option<u64>,
    pub use_local_file: bool,
    pub fullscreen: bool,
    pub hide_title_bar: bool,
    pub multi_arch: bool,
    pub debug: bool,
    pub activation_shortcut: Option<Seq<char>>,
    pub always_on_top: bool,
    pub targets: Option<Seq<char>>,
    pub user_agent: Option<Seq<char>>,
    pub show_system_tray: bool,
    pub system_tray_icon: Option<Seq<char>>,
    pub inject: Seq<Seq<char>>,
    pub safe_domain: Seq<Seq<char>>,
}

impl View for BuildConfig {
    type V = ConfigView;

    open spec fn view(&self) -> ConfigView {
        ConfigView {
            url: opt_text(self.url),
            name: opt_text(self.name),
            icon: opt_text(self.icon),
            width: self.width,
            height: self.height,
            use_local_file: self.use_local_file,
            fullscreen: self.fullscreen,
            hide_title_bar: self.hide_title_bar,
            multi_arch: self.multi_arch,
            debug: self.debug,
            activation_shortcut: opt_text(self.activation_shortcut),
            always_on_top: self.always_on_top,
            targets: opt_text(self.targets),
            user_agent: opt_text(self.user_agent),
            show_system_tray: self.show_system_tray,
            system_tray_icon: opt_text(self.system_tray_icon),
            inject: texts(self.inject@),
            safe_domain: texts(self.safe_domain@),
        }
    }
}

/// The text under `key`, where the document has a string there.
pub open spec fn text_field(doc: Json, key: Seq<char>) -> Option<Seq<char>> {
    match member_in(doc, key) {
        Some(m) => text_in(m),
        None => None,
    }
}

/// The number under `key`, where the document has a non-negative integer there.
pub open spec fn number_field(doc: Json, key: Seq<char>) -> Option<u64> {
    match member_in(doc, key) {
        Some(m) => count_in(m),
        None => None,
    }
}

/// Whether the document has the boolean `true` under `key`.
pub open spec fn switch_field(doc: Json, key: Seq<char>) -> bool {
    match member_in(doc, key) {
        Some(m) => flag_in(m) == Some(true),
        None => false,
    }
}

/// The texts of those of `items` that are strings, in order.
pub open spec fn string_items(items: Seq<Json>) -> Seq<Seq<char>>
    decreases items.len(),
{
    if items.len() == 0 {
        Seq::empty()
    } else {
        match text_in(items.last()) {
            Some(t) => string_items(items.drop_last()).push(t),
            None => string_items(items.drop_last()),
        }
    }
}

/// The strings of the array under `key`; empty where the document has no
/// array there.
pub open spec fn list_field(doc: Json, key: Seq<char>) -> Seq<Seq<char>> {
    match member_in(doc, key) {
        Some(m) => match items_in(m) {
            Some(items) => string_items(items),
            None => Seq::empty(),
        },
        None => Seq::empty(),
    }
}

/// The build options that a JSON document states. Members of another kind
/// than the option expects count as absent; unknown members are ignored.
pub open spec fn json_config(doc: Json) -> ConfigView {
    ConfigView {
        url: text_field(doc, "url"@),
        name: text_field(doc, "name"@),
        icon: text_field(doc, "icon"@),
        width: number_field(doc, "width"@),
        height: number_field(doc, "height"@),
        use_local_file: switch_field(doc, "useLocalFile"@),
        fullscreen: switch_field(doc, "fullscreen"@),
        hide_title_bar: switch_field(doc, "hideTitleBar"@),
        multi_arch: switch_field(doc, "multiArch"@),
        debug: switch_field(doc, "debug"@),
        activation_shortcut: text_field(doc, "activationShortcut"@),
        always_on_top: switch_field(doc, "alwaysOnTop"@),
        targets: text_field(doc, "targets"@),
        user_agent: text_field(doc, "userAgent"@),
        show_system_tray: switch_field(doc, "showSystemTray"@),
        system_tray_icon: text_field(doc, "systemTrayIcon"@),
        inject: list_field(doc, "inject"@),
        safe_domain: list_field(doc, "safeDomain"@),
    }
}

/// Reads the string under `key`.
pub fn read_text(doc: &serde_json::Value, key: &str) -> (r: Option<String>)
    ensures
        opt_text(r) == text_field(json_of(*doc), key@),
{
    match member(doc, key) {
        Some(m) => match text_of(m) {
            Some(s) => Some(s.to_owned()),
            None => None,
        },
        None => None,
    }
}

/// Reads the non-negative integer under `key`.
pub fn read_number(doc: &serde_json::Value, key: &str) -> (r: Option<u64>)
    ensures
        r == number_field(json_of(*doc), key@),
{
    match member(doc, key) {
        Some(m) => number_of(m),
        None => None,
    }
}

/// Reads the switch under `key`: `true` only where the document says `true`.
pub fn read_switch(doc: &serde_json::Value, key: &str) -> (r: bool)
    ensures
        r == switch_field(json_of(*doc), key@),
{
    match member(doc, key) {
        Some(m) => match flag_of(m) {
            Some(b) => b,
            None => false,
        },
        None => false,
    }
}

/// Collects the strings among `items`, in order.
pub fn read_strings(items: &Vec<serde_json::Value>) -> (r: Vec<String>)
    ensures
        texts(r@) == string_items(jsons(items@)),
{
    let mut out: Vec<String> = Vec::new();
    let mut i: usize = 0;
    assert(texts(out@) =~= string_items(jsons(items@).take(0)));
    while i < items.len()
        invariant
            i <= items.len(),
            texts(out@) == string_items(jsons(items@).take(i as int)),
        decreases items.len() - i,
    {
        let ghost before = out@;
        proof {
            let next = jsons(items@).take(i + 1);
            assert(next.drop_last() =~= jsons(items@).take(i as int));
            assert(next.last() == json_of(items@[i as int]));
        }
        match text_of(&items[i]) {
            Some(s) => {
                let owned: String = s.to_owned();
                out.push(owned);
                proof {
                    lemma_texts_push(before, owned);
                }
            },
            None => {},
        }
        i = i + 1;
    }
    assert(jsons(items@).take(i as int) =~= jsons(items@));
    out
}

/// Reads the list of strings under `key`.
pub fn read_list(doc: &serde_json::Value, key: &str) -> (r: Vec<String>)
    ensures
        texts(r@) == list_field(json_of(*doc), key@),
{
    let found: Option<&Vec<serde_json::Value>> = match member(doc, key) {
        Some(m) => items_of(m),
        None => None,
    };
    match found {
        Some(items) => read_strings(items),
        None => {
            let out: Vec<String> = Vec::new();
            assert(texts(out@) =~= Seq::<Seq<char>>::empty());
            out
        },
    }
}

/// Reads every build option from a JSON document.
pub fn config_from_json(doc: &serde_json::Value) -> (c: BuildConfig)
    ensures
        c@ == json_config(json_of(*doc)),
{
    BuildConfig {
        url: read_text(doc, "url"),
        name: read_text(doc, "name"),
        icon: read_text(doc, "icon"),
        width: read_number(doc, "width"),
        height: read_number(doc, "height"),
        use_local_file: read_switch(doc, "useLocalFile"),
        fullscreen: read_switch(doc, "fullscreen"),
        hide_title_bar: read_switch(doc, "hideTitleBar"),
        multi_arch: read_switch(doc, "multiArch"),
        debug: read_switch(doc, "debug"),
        activation_shortcut: read_text(doc, "activationShortcut"),
        always_on_top: read_switch(doc, "alwaysOnTop"),
        targets: read_text(doc, "targets"),
        user_agent: read_text(doc, "userAgent"),
        show_system_tray: read_switch(doc, "showSystemTray"),
        system_tray_icon: read_text(doc, "systemTrayIcon"),
        inject: read_list(doc, "inject"),
        safe_domain: read_list(doc, "safeDomain"),
    }
}

} // verus!
