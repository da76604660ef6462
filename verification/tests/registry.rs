use pake_registry::output::{has_prefix, output_candidates, output_name, source_of};
use pake_registry::registry::{
    collect_records, millis_stamp, sort_newest_first, stamp, Project, ProjectManager,
    RegistryError, ScanPolicy, StorePath,
};

fn record(id: &str, time: u64) -> Project {
    Project {
        id: id.to_string(),
        name: format!("name of {}", id),
        config: serde_json::Value::Null,
        last_modified: time,
    }
}

fn record_with(id: &str, config: &str) -> Project {
    Project {
        id: id.to_string(),
        name: id.to_string(),
        config: serde_json::from_str(config).unwrap(),
        last_modified: 0,
    }
}

fn manager() -> ProjectManager {
    ProjectManager::new(Some("/home/u".to_string())).ok().unwrap()
}

fn ids(records: &Vec<Project>) -> Vec<String> {
    records.iter().map(|p| p.id.clone()).collect()
}

fn parts(path: &StorePath) -> Vec<String> {
    path.components.clone()
}

#[test]
fn store_needs_a_home_directory() {
    assert!(matches!(ProjectManager::new(None), Err(RegistryError::NoHomeDirectory)));
    assert!(ProjectManager::new(Some("/home/u".to_string())).is_ok());
}

#[test]
fn paths_follow_the_layout() {
    let m = manager();
    assert_eq!(parts(&m.projects_dir()), vec!["/home/u", ".pake-gui"]);
    assert_eq!(parts(&m.get_project_path("abc")), vec!["/home/u", ".pake-gui", "abc"]);
    assert_eq!(
        parts(&m.get_project_config_path("abc")),
        vec!["/home/u", ".pake-gui", "abc", "tauri.conf.json"]
    );
}

#[test]
fn config_path_lies_in_the_project_path() {
    let m = manager();
    let dir = parts(&m.get_project_path("x1"));
    let file = parts(&m.get_project_config_path("x1"));
    assert_eq!(file.len(), dir.len() + 1);
    assert_eq!(&file[..dir.len()], &dir[..]);
}

#[test]
fn listing_is_newest_first() {
    let m = manager();
    let listed = m.list_projects(vec![
        record("a", 30),
        record("b", 10),
        record("c", 50),
        record("d", 20),
        record("e", 40),
    ]);
    assert_eq!(ids(&listed), vec!["c", "e", "a", "d", "b"]);
    let times: Vec<u64> = listed.iter().map(|p| p.last_modified).collect();
    assert_eq!(times, vec![50, 40, 30, 20, 10]);
}

#[test]
fn listing_keeps_every_record() {
    let sorted = sort_newest_first(vec![record("a", 5), record("b", 5), record("c", 7)]);
    assert_eq!(sorted.len(), 3);
    assert_eq!(sorted[0].id, "c");
    let mut rest: Vec<String> = vec![sorted[1].id.clone(), sorted[2].id.clone()];
    rest.sort();
    assert_eq!(rest, vec!["a", "b"]);
    assert_eq!(sorted[0].name, "name of c");
}

#[test]
fn equal_times_keep_their_order() {
    let sorted = sort_newest_first(vec![
        record("a", 5),
        record("b", 9),
        record("c", 5),
        record("d", 9),
        record("e", 5),
        record("f", 1),
    ]);
    assert_eq!(ids(&sorted), vec!["b", "d", "a", "c", "e", "f"]);
}

#[test]
fn listing_of_nothing_is_empty() {
    assert!(sort_newest_first(Vec::new()).is_empty());
    assert_eq!(ids(&sort_newest_first(vec![record("only", 1)])), vec!["only"]);
}

#[test]
fn stamp_replaces_only_the_time() {
    let before = record_with("p", r#"{"url": "https://example.com"}"#);
    let config = before.config.clone();
    let after = stamp(before, 1_700_000_000_123);
    assert_eq!(after.id, "p");
    assert_eq!(after.name, "p");
    assert_eq!(after.config, config);
    assert_eq!(after.last_modified, 1_700_000_000_123);
}

#[test]
fn save_names_the_file_and_stamps_the_record() {
    let m = manager();
    let (file, stored) = m.save_project(record("abc", 5), 9);
    assert_eq!(parts(&file), vec!["/home/u", ".pake-gui", "abc", "tauri.conf.json"]);
    assert_eq!(stored.id, "abc");
    assert_eq!(stored.last_modified, 9);
    assert!(stored.last_modified >= 5);
}

#[test]
fn delete_of_an_absent_record_removes_nothing() {
    let m = manager();
    assert!(m.delete_project("abc", false).is_none());
    assert!(m.delete_project("abc", false).is_none());
    let dir = m.delete_project("abc", true).unwrap();
    assert_eq!(parts(&dir), vec!["/home/u", ".pake-gui", "abc"]);
}

#[test]
fn millis_keep_their_low_bits() {
    assert_eq!(millis_stamp(0), 0);
    assert_eq!(millis_stamp(1_700_000_000_123), 1_700_000_000_123);
    assert_eq!(millis_stamp(u64::MAX as u128), u64::MAX);
    assert_eq!(millis_stamp(u64::MAX as u128 + 1), 0);
    assert_eq!(millis_stamp(u128::MAX), u64::MAX);
}

#[test]
fn prefixes_are_recognised() {
    assert!(has_prefix("https://example.com", "http"));
    assert!(has_prefix("http", "http"));
    assert!(has_prefix("anything", ""));
    assert!(!has_prefix("htt", "http"));
    assert!(!has_prefix("ftp://x", "http"));
    assert!(!has_prefix("", "http"));
}

#[test]
fn bundle_is_named_after_the_source() {
    assert_eq!(output_name("https://example.com", Some("MyApp".to_string()), None), "MyApp");
    assert_eq!(
        output_name("https://example.com", None, Some("example".to_string())),
        "app"
    );
    assert_eq!(
        output_name("site/index.html", Some("MyApp".to_string()), Some("index".to_string())),
        "index"
    );
    assert_eq!(output_name("..", Some("MyApp".to_string()), None), "MyApp");
    assert_eq!(output_name("..", None, None), "app");
}

#[test]
fn bundle_candidates_are_tried_in_order() {
    let m = manager();
    let p = record_with("abc", r#"{"url": "https://example.com", "name": "MyApp"}"#);
    assert_eq!(source_of(&p), Some("https://example.com".to_string()));
    let found: Vec<Vec<String>> = output_candidates(&m, &p, None).iter().map(parts).collect();
    assert_eq!(
        found,
        vec![
            vec!["/home/u", ".pake-gui", "abc", "MyApp.app"],
            vec!["/home/u", ".pake-gui", "abc", "MyApp.exe"],
            vec!["/home/u", ".pake-gui", "abc", "MyApp"],
        ]
    );
}

#[test]
fn no_source_gives_no_candidates() {
    let m = manager();
    let p = record_with("abc", r#"{"name": "MyApp"}"#);
    assert_eq!(source_of(&p), None);
    assert!(output_candidates(&m, &p, Some("x".to_string())).is_empty());
}

#[test]
fn first_unreadable_record_fails_a_strict_scan() {
    let entries = vec![
        Ok(record("a", 1)),
        Err(RegistryError::Parse("bad record".to_string())),
        Ok(record("b", 2)),
        Err(RegistryError::Io("denied".to_string())),
    ];
    let r = collect_records(entries, ScanPolicy::FailFast);
    assert!(matches!(r, Err(RegistryError::Parse(cause)) if cause == "bad record"));
}

#[test]
fn unreadable_records_are_left_out_of_a_lenient_scan() {
    let entries = vec![
        Ok(record("a", 1)),
        Err(RegistryError::Parse("bad record".to_string())),
        Ok(record("b", 2)),
        Err(RegistryError::NotFound),
    ];
    let found = collect_records(entries, ScanPolicy::Skip).ok().unwrap();
    assert_eq!(ids(&found), vec!["a", "b"]);
}

#[test]
fn a_clean_scan_keeps_every_record_in_order() {
    let entries = vec![Ok(record("a", 1)), Ok(record("b", 2)), Ok(record("c", 0))];
    let found = collect_records(entries, ScanPolicy::FailFast).ok().unwrap();
    assert_eq!(ids(&found), vec!["a", "b", "c"]);
    assert!(collect_records(Vec::new(), ScanPolicy::FailFast).ok().unwrap().is_empty());
}

#[test]
fn registry_errors_are_worded() {
    assert_eq!(RegistryError::NoHomeDirectory.message(), "Could not find home directory");
    assert_eq!(RegistryError::NotFound.message(), "Record not found");
    assert_eq!(RegistryError::Io("disk full".to_string()).message(), "disk full");
    assert_eq!(RegistryError::Parse("expected value".to_string()).message(), "expected value");
}
