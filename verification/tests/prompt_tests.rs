use harp_store::commands::HarpEffect;
use harp_store::entry::Entry;
use harp_store::errors::{ArityIssue, HarpError};
use harp_store::prompt::{
    harp_command_set, harp_cwd_set, harp_file_get, harp_file_set, harp_fuzzy_get,
    harp_register_set, harp_search_get, harp_search_set, PromptOutcome,
};
use harp_store::resolve::ResolveContext;
use harp_store::store::Store;

fn ctx() -> ResolveContext {
    ResolveContext {
        buffer_path: Some("/tmp/x.rs".to_string()),
        cwd: "/work".to_string(),
        language: Some("rust".to_string()),
    }
}

#[test]
fn set_then_get_a_buffer_scoped_file() {
    let mut store = Store::new_store();
    let out = harp_file_set(&mut store, &ctx(), ",a");
    assert!(matches!(out, PromptOutcome::Updated));
    match store
        .get_entry("harp_files_/tmp/x.rs", "a")
        .expect("the buffer-scoped register must exist")
    {
        Entry::Record(rec) => assert_eq!(rec.path.as_deref(), Some("/tmp/x.rs")),
        Entry::List(_) => panic!("expected a record"),
    }
    match harp_file_get(&mut store, &ctx(), ",a") {
        PromptOutcome::Perform(HarpEffect::OpenPath(p)) => assert_eq!(p, "/tmp/x.rs"),
        _ => panic!("expected an open"),
    }
}

#[test]
fn getting_an_unset_register_reports_it() {
    let mut store = Store::new_store();
    harp_file_set(&mut store, &ctx(), ",a");
    match harp_file_get(&mut store, &ctx(), ",b") {
        PromptOutcome::Failed(HarpError::RegisterUnset { section, register }) => {
            assert_eq!(section, "harp_files_/tmp/x.rs");
            assert_eq!(register, "b");
        }
        _ => panic!("expected an unset register"),
    }
}

#[test]
fn empty_input_is_ignored() {
    let mut store = Store::new_store();
    assert!(matches!(harp_file_set(&mut store, &ctx(), ""), PromptOutcome::Ignored));
    assert!(matches!(harp_file_get(&mut store, &ctx(), ""), PromptOutcome::Ignored));
    assert!(store.get_entry("harp_files", "").is_none());
}

#[test]
fn bare_token_changes_the_default_and_nothing_else() {
    let mut store = Store::new_store();
    let out = harp_file_set(&mut store, &ctx(), ";");
    assert!(matches!(out, PromptOutcome::DefaultChanged));
    let out = harp_file_set(&mut store, &ctx(), "a");
    assert!(matches!(out, PromptOutcome::Updated));
    assert!(store.get_entry("harp_files!rust", "a").is_some());
}

#[test]
fn file_set_without_a_buffer_path_fails() {
    let mut store = Store::new_store();
    let bare = ResolveContext { buffer_path: None, cwd: "/work".to_string(), language: None };
    assert!(matches!(
        harp_file_set(&mut store, &bare, "a"),
        PromptOutcome::Failed(HarpError::UnpathedBuffer)
    ));
}

#[test]
fn search_get_demands_the_extra_field() {
    let mut store = Store::new_store();
    harp_file_set(&mut store, &ctx(), "'a");
    // the file register stores only a path; reading it as a search demands
    // the extra field, which is absent
    let mut search_store = Store::new_store();
    harp_store::access::harp_update(
        &mut search_store,
        "harp_searches",
        "a",
        harp_store::entry::HarpInput {
            path: Some("/p".to_string()),
            line: None,
            column: None,
            extra: None,
        },
    );
    match harp_search_get(&mut search_store, &ctx(), "'a") {
        PromptOutcome::Failed(HarpError::ArityMismatch {
            issue: ArityIssue::MissingFields(m),
            ..
        }) => {
            assert!(m.extra);
            assert!(!m.path);
        }
        _ => panic!("expected missing fields"),
    }
}

#[test]
fn search_set_stores_the_pattern() {
    let mut store = Store::new_store();
    let out = harp_search_set(&mut store, &ctx(), "'a", Some("needle".to_string()));
    assert!(matches!(out, PromptOutcome::Updated));
    match harp_search_get(&mut store, &ctx(), "'a") {
        PromptOutcome::Perform(HarpEffect::SetSearch(p)) => assert_eq!(p, "needle"),
        _ => panic!("expected a search effect"),
    }
}

#[test]
fn prompt_search_set_needs_a_pattern() {
    let mut store = Store::new_store();
    match harp_search_set(&mut store, &ctx(), "'a", None) {
        PromptOutcome::Failed(HarpError::WriteTargetUnavailable { target }) => {
            assert_eq!(target, "/")
        }
        _ => panic!("expected the missing search register"),
    }
}

#[test]
fn register_set_joins_the_yank_values() {
    let mut store = Store::new_store();
    let out = harp_register_set(
        &mut store,
        &ctx(),
        "'r",
        Some(vec!["a".to_string(), "b".to_string()]),
    );
    assert!(matches!(out, PromptOutcome::Updated));
    match store.get_entry("harp_registers", "r").unwrap() {
        Entry::Record(rec) => assert_eq!(rec.extra.as_deref(), Some("a\nb")),
        Entry::List(_) => panic!("expected a record"),
    }
}

#[test]
fn prompt_command_set_needs_a_history_entry() {
    let mut store = Store::new_store();
    match harp_command_set(&mut store, &ctx(), "'c", None) {
        PromptOutcome::Failed(HarpError::WriteTargetUnavailable { target }) => {
            assert_eq!(target, ":")
        }
        _ => panic!("expected the missing command register"),
    }
}

#[test]
fn cwd_set_stores_the_working_directory() {
    let mut store = Store::new_store();
    let out = harp_cwd_set(&mut store, &ctx(), "'d");
    assert!(matches!(out, PromptOutcome::Updated));
    match store.get_entry("harp_dirs", "d").unwrap() {
        Entry::Record(rec) => assert_eq!(rec.path.as_deref(), Some("/work")),
        Entry::List(_) => panic!("expected a record"),
    }
}

#[test]
fn cwd_set_with_directory_token_stores_the_buffer_parent() {
    let mut store = Store::new_store();
    let out = harp_cwd_set(&mut store, &ctx(), ".d");
    assert!(matches!(out, PromptOutcome::Updated));
    match store.get_entry("harp_dirs_/work", "d").unwrap() {
        Entry::Record(rec) => assert_eq!(rec.path.as_deref(), Some("/tmp")),
        Entry::List(_) => panic!("expected a record"),
    }
}

#[test]
fn fuzzy_get_expands_the_tilde() {
    let mut store = Store::new_store();
    harp_store::access::harp_update(
        &mut store,
        "harp_dirs",
        "d",
        harp_store::entry::HarpInput {
            path: Some("~/projects".to_string()),
            line: None,
            column: None,
            extra: None,
        },
    );
    match harp_fuzzy_get(&mut store, &ctx(), "'d", Some("/home/me".to_string())) {
        PromptOutcome::Perform(HarpEffect::OpenPicker(p)) => assert_eq!(p, "/home/me/projects"),
        _ => panic!("expected a picker"),
    }
}
