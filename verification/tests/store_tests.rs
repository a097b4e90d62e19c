use harp_store::access::{harp_get, harp_get_one, harp_replace, harp_update, HarpOutput};
use harp_store::entry::{Entry, HarpContract, HarpInput};
use harp_store::errors::{ArityIssue, HarpError};
use harp_store::store::Store;

fn list_entry(e: &Entry) -> Vec<String> {
    match e {
        Entry::List(v) => v.clone(),
        Entry::Record(_) => panic!("expected a list entry"),
    }
}

#[test]
fn empty_store_has_nothing() {
    let store = Store::new_store();
    assert!(store.get_entry("a", "b").is_none());
}

#[test]
fn write_then_read_list_round_trip() {
    let mut store = Store::new_store();
    harp_replace(
        &mut store,
        "harp_files",
        "a",
        vec!["one".to_string(), "two".to_string(), "three".to_string()],
    );
    let entry = store.get_entry("harp_files", "a").expect("entry must exist");
    assert_eq!(list_entry(entry), vec!["one", "two", "three"]);
}

#[test]
fn write_then_read_record_round_trip() {
    let mut store = Store::new_store();
    harp_update(
        &mut store,
        "harp_files",
        "a",
        HarpInput {
            path: Some("/a/b.rs".to_string()),
            line: Some(3),
            column: Some(9),
            extra: Some("x".to_string()),
        },
    );
    match store.get_entry("harp_files", "a").expect("entry must exist") {
        Entry::Record(rec) => {
            assert_eq!(rec.path.as_deref(), Some("/a/b.rs"));
            assert_eq!(rec.line, Some(3));
            assert_eq!(rec.column, Some(9));
            assert_eq!(rec.extra.as_deref(), Some("x"));
        }
        Entry::List(_) => panic!("expected a record entry"),
    }
}

#[test]
fn clear_append_twice_is_idempotent() {
    let mut once = Store::new_store();
    harp_replace(&mut once, "s", "r", vec!["x".to_string(), "y".to_string(), "z".to_string()]);
    let mut twice = Store::new_store();
    harp_replace(&mut twice, "s", "r", vec!["x".to_string(), "y".to_string(), "z".to_string()]);
    harp_replace(&mut twice, "s", "r", vec!["x".to_string(), "y".to_string(), "z".to_string()]);
    let a = list_entry(once.get_entry("s", "r").unwrap());
    let b = list_entry(twice.get_entry("s", "r").unwrap());
    assert_eq!(a, b);
    assert_eq!(a, vec!["x", "y", "z"]);
}

#[test]
fn replace_overwrites_previous_values() {
    let mut store = Store::new_store();
    harp_replace(&mut store, "s", "r", vec!["old".to_string(), "older".to_string()]);
    harp_replace(&mut store, "s", "r", vec!["new".to_string()]);
    assert_eq!(list_entry(store.get_entry("s", "r").unwrap()), vec!["new"]);
}

#[test]
fn delete_register_removes_only_that_register() {
    let mut store = Store::new_store();
    harp_replace(&mut store, "s", "a", vec!["1".to_string()]);
    harp_replace(&mut store, "s", "b", vec!["2".to_string()]);
    assert!(store.delete_register("s", "a"));
    assert!(store.get_entry("s", "a").is_none());
    assert_eq!(list_entry(store.get_entry("s", "b").unwrap()), vec!["2"]);
    assert!(!store.delete_register("s", "a"));
}

#[test]
fn delete_all_clears_section_but_not_sibling() {
    let mut store = Store::new_store();
    harp_replace(&mut store, "harp_files_/tmp/x.rs", "a", vec!["1".to_string()]);
    harp_replace(&mut store, "harp_files_/tmp/x.rs", "b", vec!["2".to_string()]);
    harp_replace(&mut store, "harp_files", "a", vec!["3".to_string()]);
    store.clear_section("harp_files_/tmp/x.rs");
    assert!(store.get_entry("harp_files_/tmp/x.rs", "a").is_none());
    assert!(store.get_entry("harp_files_/tmp/x.rs", "b").is_none());
    assert_eq!(list_entry(store.get_entry("harp_files", "a").unwrap()), vec!["3"]);
}

#[test]
fn harp_get_checks_the_value_count() {
    let mut store = Store::new_store();
    harp_replace(&mut store, "s", "r", vec!["1".to_string(), "2".to_string()]);
    match harp_get(&store, 3, "s", "r") {
        Err(HarpError::ArityMismatch { section, register, issue }) => {
            assert_eq!(section, "s");
            assert_eq!(register, "r");
            match issue {
                ArityIssue::WrongCount { expected, actual } => {
                    assert_eq!(expected, 3);
                    assert_eq!(actual, 2);
                }
                ArityIssue::MissingFields(_) => panic!("expected a wrong count"),
            }
        }
        _ => panic!("expected an arity mismatch"),
    }
    assert_eq!(harp_get(&store, 2, "s", "r").unwrap(), vec!["1", "2"]);
}

#[test]
fn harp_get_one_reports_unset_registers() {
    let store = Store::new_store();
    match harp_get_one(&store, "s", "r") {
        Err(HarpError::RegisterUnset { section, register }) => {
            assert_eq!(section, "s");
            assert_eq!(register, "r");
        }
        _ => panic!("expected an unset register"),
    }
}

#[test]
fn harp_get_one_reports_empty_lists_as_unset() {
    let mut store = Store::new_store();
    harp_replace(&mut store, "s", "r", Vec::new());
    assert!(matches!(
        harp_get_one(&store, "s", "r"),
        Err(HarpError::RegisterUnset { .. })
    ));
}

#[test]
fn build_requires_record_shape() {
    let mut store = Store::new_store();
    harp_replace(&mut store, "s", "r", vec!["1".to_string()]);
    assert!(matches!(
        HarpOutput::build(&store, "s", "r", HarpContract::path()),
        Err(HarpError::FormatError { .. })
    ));
}

#[test]
fn build_fails_on_missing_required_fields() {
    let mut store = Store::new_store();
    harp_update(
        &mut store,
        "s",
        "r",
        HarpInput { path: Some("/a".to_string()), line: None, column: None, extra: None },
    );
    let contract = HarpContract { path: true, line: true, column: true, extra: false };
    match HarpOutput::build(&store, "s", "r", contract) {
        Err(HarpError::ArityMismatch { issue: ArityIssue::MissingFields(m), .. }) => {
            assert!(!m.path);
            assert!(m.line);
            assert!(m.column);
            assert!(!m.extra);
        }
        _ => panic!("expected missing fields"),
    }
}

#[test]
fn build_returns_only_required_fields() {
    let mut store = Store::new_store();
    harp_update(
        &mut store,
        "s",
        "r",
        HarpInput {
            path: Some("/a".to_string()),
            line: None,
            column: None,
            extra: Some("x".to_string()),
        },
    );
    let out = HarpOutput::build(&store, "s", "r", HarpContract::path()).unwrap();
    assert_eq!(out.path.as_deref(), Some("/a"));
    assert_eq!(out.extra, None);
}

#[test]
fn register_names_keep_insertion_order() {
    let mut store = Store::new_store();
    harp_replace(&mut store, "s", "b", vec!["1".to_string()]);
    harp_replace(&mut store, "s", "a", vec!["2".to_string()]);
    assert_eq!(store.register_names("s"), vec!["b", "a"]);
    assert!(store.register_names("other").is_empty());
}

#[test]
fn error_messages_name_the_register() {
    let e = HarpError::RegisterUnset { section: "sec".to_string(), register: "reg".to_string() };
    assert_eq!(e.message(), "harp: register `reg` doesn't exist in section `sec`");
    assert_eq!(
        HarpError::UnpathedBuffer.message(),
        "harp: current buffer doesn't have a path"
    );
    let w = HarpError::WriteTargetUnavailable { target: "/".to_string() };
    assert_eq!(w.message(), "harp: register / is empty");
    let io = HarpError::IoError { message: "cannot write".to_string() };
    assert_eq!(io.message(), "harp: cannot write");
    let f = HarpError::FormatError { message: "bad document".to_string() };
    assert_eq!(f.message(), "harp: bad document");
}
