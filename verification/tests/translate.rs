use pake_registry::config::BuildConfig;
use pake_registry::error::BuildError;
use pake_registry::translate::{build_args, build_args_under, translate, Defaults};

fn empty_config() -> BuildConfig {
    BuildConfig {
        url: None,
        name: None,
        icon: None,
        width: None,
        height: None,
        use_local_file: false,
        fullscreen: false,
        hide_title_bar: false,
        multi_arch: false,
        debug: false,
        activation_shortcut: None,
        always_on_top: false,
        targets: None,
        user_agent: None,
        show_system_tray: false,
        system_tray_icon: None,
        inject: Vec::new(),
        safe_domain: Vec::new(),
    }
}

fn parse(text: &str) -> serde_json::Value {
    serde_json::from_str(text).unwrap()
}

#[test]
fn defaults_are_suppressed() {
    let mut c = empty_config();
    c.url = Some("https://example.com".to_string());
    c.width = Some(1200);
    c.height = Some(780);
    let args = build_args(&c);
    assert!(matches!(&args, Ok(v) if *v == vec!["https://example.com".to_string()]));
}

#[test]
fn flags_keep_their_order() {
    let mut c = empty_config();
    c.url = Some("a.html".to_string());
    c.name = Some("MyApp".to_string());
    c.fullscreen = true;
    c.inject = vec!["a.js".to_string(), "b.js".to_string()];
    let args = build_args(&c).ok().unwrap();
    assert_eq!(
        args,
        vec!["a.html", "--name", "MyApp", "--fullscreen", "--inject", "a.js", "--inject", "b.js"]
    );
}

#[test]
fn missing_url_is_rejected() {
    let mut c = empty_config();
    c.name = Some("MyApp".to_string());
    assert!(matches!(build_args(&c), Err(BuildError::MissingUrl)));
}

#[test]
fn every_option_is_emitted() {
    let c = BuildConfig {
        url: Some("https://example.com".to_string()),
        name: Some("App".to_string()),
        icon: Some("icon.png".to_string()),
        width: Some(1024),
        height: Some(0),
        use_local_file: true,
        fullscreen: true,
        hide_title_bar: true,
        multi_arch: true,
        debug: true,
        activation_shortcut: Some("Ctrl+K".to_string()),
        always_on_top: true,
        targets: Some("deb".to_string()),
        user_agent: Some("UA".to_string()),
        show_system_tray: true,
        system_tray_icon: Some("tray.png".to_string()),
        inject: vec!["x.css".to_string()],
        safe_domain: vec!["a.com".to_string(), "b.com".to_string()],
    };
    let args = build_args(&c).ok().unwrap();
    assert_eq!(
        args,
        vec![
            "https://example.com",
            "--name",
            "App",
            "--icon",
            "icon.png",
            "--width",
            "1024",
            "--height",
            "0",
            "--use-local-file",
            "--fullscreen",
            "--hide-title-bar",
            "--multi-arch",
            "--debug",
            "--activation-shortcut",
            "Ctrl+K",
            "--always-on-top",
            "--targets",
            "deb",
            "--user-agent",
            "UA",
            "--show-system-tray",
            "--system-tray-icon",
            "tray.png",
            "--inject",
            "x.css",
            "--safe-domain",
            "a.com",
            "--safe-domain",
            "b.com",
        ]
    );
}

#[test]
fn empty_texts_and_default_targets_are_suppressed() {
    let mut c = empty_config();
    c.url = Some("u".to_string());
    c.name = Some(String::new());
    c.icon = Some(String::new());
    c.activation_shortcut = Some(String::new());
    c.user_agent = Some(String::new());
    c.system_tray_icon = Some(String::new());
    c.targets = Some("all".to_string());
    assert_eq!(build_args(&c).ok().unwrap(), vec!["u"]);
}

#[test]
fn empty_targets_differ_from_the_default() {
    let mut c = empty_config();
    c.url = Some("u".to_string());
    c.targets = Some(String::new());
    assert_eq!(build_args(&c).ok().unwrap(), vec!["u", "--targets", ""]);
}

#[test]
fn largest_width_is_written_in_full() {
    let mut c = empty_config();
    c.url = Some("u".to_string());
    c.width = Some(u64::MAX);
    assert_eq!(build_args(&c).ok().unwrap(), vec!["u", "--width", "18446744073709551615"]);
}

#[test]
fn json_defaults_are_suppressed() {
    let doc = parse(r#"{"url": "https://example.com", "width": 1200, "height": 780}"#);
    assert_eq!(translate(&doc).ok().unwrap(), vec!["https://example.com"]);
}

#[test]
fn json_flags_keep_their_order() {
    let doc = parse(
        r#"{"url": "a.html", "name": "MyApp", "fullscreen": true, "inject": ["a.js", "b.js"]}"#,
    );
    assert_eq!(
        translate(&doc).ok().unwrap(),
        vec!["a.html", "--name", "MyApp", "--fullscreen", "--inject", "a.js", "--inject", "b.js"]
    );
}

#[test]
fn json_without_url_is_rejected() {
    let doc = parse(r#"{"name": "MyApp", "width": 800}"#);
    assert!(matches!(translate(&doc), Err(BuildError::MissingUrl)));
}

#[test]
fn json_url_of_another_kind_is_rejected() {
    let doc = parse(r#"{"url": 5}"#);
    assert!(matches!(translate(&doc), Err(BuildError::MissingUrl)));
    let doc = parse(r#"["url"]"#);
    assert!(matches!(translate(&doc), Err(BuildError::MissingUrl)));
}

#[test]
fn json_members_of_another_kind_count_as_absent() {
    let doc = parse(
        r#"{"url": "u", "name": 3, "width": -5, "height": 1.5, "debug": "yes",
            "fullscreen": false, "inject": "a.js", "safeDomain": ["a.com", 7, null, "b.com"],
            "unknown": {"x": 1}}"#,
    );
    assert_eq!(
        translate(&doc).ok().unwrap(),
        vec!["u", "--safe-domain", "a.com", "--safe-domain", "b.com"]
    );
}

#[test]
fn json_numbers_and_switches_are_read() {
    let doc = parse(
        r#"{"url": "u", "width": 800, "height": 600, "useLocalFile": true, "hideTitleBar": true,
            "multiArch": true, "debug": true, "alwaysOnTop": true, "showSystemTray": true,
            "targets": "appimage"}"#,
    );
    assert_eq!(
        translate(&doc).ok().unwrap(),
        vec![
            "u",
            "--width",
            "800",
            "--height",
            "600",
            "--use-local-file",
            "--hide-title-bar",
            "--multi-arch",
            "--debug",
            "--always-on-top",
            "--targets",
            "appimage",
            "--show-system-tray",
        ]
    );
}

#[test]
fn error_messages_are_worded() {
    assert_eq!(BuildError::MissingUrl.message(), "URL is required");
    assert_eq!(
        BuildError::Spawn("no such file".to_string()).message(),
        "Failed to start pake command: no such file"
    );
    assert_eq!(BuildError::Command("boom".to_string()).message(), "Command error: boom");
    assert_eq!(
        BuildError::NonZeroExit.message(),
        "Command terminated with non-zero exit code"
    );
}

#[test]
fn other_defaults_suppress_other_values() {
    let mut c = empty_config();
    c.url = Some("u".to_string());
    c.width = Some(1200);
    c.height = Some(600);
    c.targets = Some("all".to_string());
    let d = Defaults { width: 800, height: 600, targets: "deb".to_string() };
    assert_eq!(
        build_args_under(&c, &d).ok().unwrap(),
        vec!["u", "--width", "1200", "--targets", "all"]
    );
    let standard = Defaults::standard();
    assert_eq!(standard.width, 1200);
    assert_eq!(standard.height, 780);
    assert_eq!(standard.targets, "all");
    assert_eq!(build_args_under(&c, &standard).ok().unwrap(), vec!["u", "--height", "600"]);
    c.url = None;
    assert!(matches!(build_args_under(&c, &d), Err(BuildError::MissingUrl)));
}
