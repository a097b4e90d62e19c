use harp_store::access::harp_replace;
use harp_store::commands::{
    harp_command, harp_cwd, harp_file, harp_mark, harp_register, harp_relative_file, harp_search,
    HarpEffect,
};
use harp_store::entry::Entry;
use harp_store::errors::{ArityIssue, HarpError};
use harp_store::protocol::Reciprocation;
use harp_store::store::Store;

fn list_of(store: &Store, section: &str, register: &str) -> Vec<String> {
    match store.get_entry(section, register).expect("entry must exist") {
        Entry::List(v) => v.clone(),
        Entry::Record(_) => panic!("expected a list entry"),
    }
}

#[test]
fn file_get_opens_the_stored_path() {
    let mut store = Store::new_store();
    harp_replace(&mut store, "s", "r", vec!["/a/b.rs".to_string()]);
    match harp_file(&mut store, Reciprocation::Get, "s", "r", None).unwrap() {
        HarpEffect::OpenPath(p) => assert_eq!(p, "/a/b.rs"),
        _ => panic!("expected an open"),
    }
}

#[test]
fn file_set_stores_the_buffer_path() {
    let mut store = Store::new_store();
    let eff = harp_file(&mut store, Reciprocation::Put, "s", "r", Some("/x.rs".to_string()));
    assert!(matches!(eff, Ok(HarpEffect::Saved)));
    assert_eq!(list_of(&store, "s", "r"), vec!["/x.rs"]);
}

#[test]
fn file_set_needs_a_buffer_path() {
    let mut store = Store::new_store();
    assert!(matches!(
        harp_file(&mut store, Reciprocation::Put, "s", "r", None),
        Err(HarpError::UnpathedBuffer)
    ));
    assert!(store.get_entry("s", "r").is_none());
}

#[test]
fn relative_file_set_strips_the_cwd() {
    let mut store = Store::new_store();
    harp_relative_file(
        &mut store,
        Reciprocation::Put,
        "s",
        "r",
        Some("/work/src/main.rs".to_string()),
        "/work",
    )
    .unwrap();
    assert_eq!(list_of(&store, "s", "r"), vec!["src/main.rs"]);
}

#[test]
fn relative_file_set_keeps_paths_outside_the_cwd() {
    let mut store = Store::new_store();
    harp_relative_file(
        &mut store,
        Reciprocation::Put,
        "s",
        "r",
        Some("/elsewhere/a.rs".to_string()),
        "/work",
    )
    .unwrap();
    assert_eq!(list_of(&store, "s", "r"), vec!["/elsewhere/a.rs"]);
}

#[test]
fn cwd_round_trip() {
    let mut store = Store::new_store();
    harp_cwd(&mut store, Reciprocation::Put, "s", "r", "/work").unwrap();
    match harp_cwd(&mut store, Reciprocation::Get, "s", "r", "/ignored").unwrap() {
        HarpEffect::SetCwd(p) => assert_eq!(p, "/work"),
        _ => panic!("expected a directory change"),
    }
}

#[test]
fn search_set_needs_a_pattern() {
    let mut store = Store::new_store();
    match harp_search(&mut store, Reciprocation::Put, "s", "r", None) {
        Err(HarpError::WriteTargetUnavailable { target }) => assert_eq!(target, "/"),
        _ => panic!("expected the missing search register"),
    }
}

#[test]
fn search_round_trip() {
    let mut store = Store::new_store();
    harp_search(&mut store, Reciprocation::Put, "s", "r", Some("needle".to_string())).unwrap();
    match harp_search(&mut store, Reciprocation::Get, "s", "r", None).unwrap() {
        HarpEffect::SetSearch(p) => assert_eq!(p, "needle"),
        _ => panic!("expected a search effect"),
    }
}

#[test]
fn register_set_joins_yank_values_with_newlines() {
    let mut store = Store::new_store();
    harp_register(
        &mut store,
        Reciprocation::Put,
        "s",
        "r",
        Some(vec!["one".to_string(), "two".to_string()]),
    )
    .unwrap();
    assert_eq!(list_of(&store, "s", "r"), vec!["one\ntwo"]);
}

#[test]
fn register_set_needs_the_yank_register() {
    let mut store = Store::new_store();
    match harp_register(&mut store, Reciprocation::Put, "s", "r", None) {
        Err(HarpError::WriteTargetUnavailable { target }) => assert_eq!(target, "default"),
        _ => panic!("expected the missing yank register"),
    }
}

#[test]
fn command_get_skips_history_when_already_latest() {
    let mut store = Store::new_store();
    harp_replace(&mut store, "s", "r", vec!["write".to_string()]);
    match harp_command(
        &mut store,
        Reciprocation::Get,
        "s",
        "r",
        Some("write".to_string()),
        None,
    )
    .unwrap()
    {
        HarpEffect::RunCommand { command, push_history } => {
            assert_eq!(command, "write");
            assert!(!push_history);
        }
        _ => panic!("expected a command"),
    }
    match harp_command(&mut store, Reciprocation::Get, "s", "r", Some("quit".to_string()), None)
        .unwrap()
    {
        HarpEffect::RunCommand { command, push_history } => {
            assert_eq!(command, "write");
            assert!(push_history);
        }
        _ => panic!("expected a command"),
    }
}

#[test]
fn command_get_pushes_history_when_it_is_empty() {
    let mut store = Store::new_store();
    harp_replace(&mut store, "s", "r", vec!["write".to_string()]);
    match harp_command(&mut store, Reciprocation::Get, "s", "r", None, None).unwrap() {
        HarpEffect::RunCommand { push_history, .. } => assert!(push_history),
        _ => panic!("expected a command"),
    }
}

#[test]
fn command_set_needs_a_history_entry() {
    let mut store = Store::new_store();
    match harp_command(&mut store, Reciprocation::Put, "s", "r", None, None) {
        Err(HarpError::WriteTargetUnavailable { target }) => assert_eq!(target, ":"),
        _ => panic!("expected the missing command register"),
    }
}

#[test]
fn mark_set_stores_path_and_coordinates() {
    let mut store = Store::new_store();
    harp_mark(&mut store, Reciprocation::Put, "s", "r", Some("/a.rs".to_string()), 12, 34)
        .unwrap();
    assert_eq!(list_of(&store, "s", "r"), vec!["/a.rs", "12", "34"]);
}

#[test]
fn mark_round_trip() {
    let mut store = Store::new_store();
    harp_mark(&mut store, Reciprocation::Put, "s", "r", Some("/a.rs".to_string()), 12, 34)
        .unwrap();
    match harp_mark(&mut store, Reciprocation::Get, "s", "r", None, 0, 0).unwrap() {
        HarpEffect::OpenAt { path, line, column } => {
            assert_eq!(path, "/a.rs");
            assert_eq!(line, 12);
            assert_eq!(column, 34);
        }
        _ => panic!("expected a positioned open"),
    }
}

#[test]
fn mark_get_rejects_wrong_value_counts() {
    let mut store = Store::new_store();
    harp_replace(&mut store, "s", "r", vec!["/a.rs".to_string()]);
    match harp_mark(&mut store, Reciprocation::Get, "s", "r", None, 0, 0) {
        Err(HarpError::ArityMismatch { issue: ArityIssue::WrongCount { expected, actual }, .. }) => {
            assert_eq!(expected, 3);
            assert_eq!(actual, 1);
        }
        _ => panic!("expected a wrong count"),
    }
}

#[test]
fn mark_get_rejects_malformed_coordinates() {
    let mut store = Store::new_store();
    harp_replace(
        &mut store,
        "s",
        "r",
        vec!["/a.rs".to_string(), "twelve".to_string(), "34".to_string()],
    );
    assert!(matches!(
        harp_mark(&mut store, Reciprocation::Get, "s", "r", None, 0, 0),
        Err(HarpError::FormatError { .. })
    ));
}
