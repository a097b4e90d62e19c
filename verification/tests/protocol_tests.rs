use harp_store::access::harp_replace;
use harp_store::protocol::{
    harp_resolve_step, KeyConfig, PromptState, Reciprocation, StepOutcome,
};
use harp_store::resolve::{Relativity, ResolveContext};
use harp_store::store::Store;

fn ctx() -> ResolveContext {
    ResolveContext {
        buffer_path: Some("/tmp/x.rs".to_string()),
        cwd: "/work".to_string(),
        language: Some("rust".to_string()),
    }
}

fn state() -> PromptState {
    PromptState {
        relativity: Relativity::Global,
        reciprocation: Reciprocation::Get,
        section: "harp_files".to_string(),
    }
}

fn filled_store() -> Store {
    let mut store = Store::new_store();
    harp_replace(&mut store, "harp_files", "a", vec!["/one".to_string()]);
    harp_replace(&mut store, "harp_files", "b", vec!["/two".to_string()]);
    harp_replace(&mut store, "harp_files_/tmp/x.rs", "a", vec!["/buf".to_string()]);
    store
}

#[test]
fn escape_cancels_without_touching_the_store() {
    let mut st = state();
    let mut store = filled_store();
    let out = harp_resolve_step(&mut st, &mut store, &ctx(), &KeyConfig::standard(), "<esc>");
    assert!(matches!(out, StepOutcome::Cancelled));
    assert!(store.get_entry("harp_files", "a").is_some());
    assert!(store.get_entry("harp_files", "b").is_some());
    assert!(store.get_entry("harp_files_/tmp/x.rs", "a").is_some());
}

#[test]
fn escape_cancels_in_every_mode() {
    for mode in [Reciprocation::Get, Reciprocation::Put, Reciprocation::Delete] {
        let mut st = state();
        st.reciprocation = mode;
        let mut store = filled_store();
        let out = harp_resolve_step(&mut st, &mut store, &ctx(), &KeyConfig::standard(), "<esc>");
        assert!(matches!(out, StepOutcome::Cancelled));
        assert!(store.get_entry("harp_files", "a").is_some());
    }
}

#[test]
fn relativity_keys_switch_the_scope() {
    let mut st = state();
    let mut store = filled_store();
    let out = harp_resolve_step(&mut st, &mut store, &ctx(), &KeyConfig::standard(), ",");
    assert!(matches!(out, StepOutcome::Continue));
    assert!(matches!(st.relativity, Relativity::Buffer));
    let out = harp_resolve_step(&mut st, &mut store, &ctx(), &KeyConfig::standard(), "a");
    match out {
        StepOutcome::Invoke { reciprocation, section, register } => {
            assert!(matches!(reciprocation, Reciprocation::Get));
            assert_eq!(section, "harp_files_/tmp/x.rs");
            assert_eq!(register, "a");
        }
        _ => panic!("expected an invocation"),
    }
}

#[test]
fn toggle_flips_get_and_set() {
    let mut st = state();
    let mut store = Store::new_store();
    harp_resolve_step(&mut st, &mut store, &ctx(), &KeyConfig::standard(), "<space>");
    assert!(matches!(st.reciprocation, Reciprocation::Put));
    harp_resolve_step(&mut st, &mut store, &ctx(), &KeyConfig::standard(), "<space>");
    assert!(matches!(st.reciprocation, Reciprocation::Get));
}

#[test]
fn toggle_leaves_delete_for_get() {
    let mut st = state();
    st.reciprocation = Reciprocation::Delete;
    let mut store = Store::new_store();
    harp_resolve_step(&mut st, &mut store, &ctx(), &KeyConfig::standard(), "<space>");
    assert!(matches!(st.reciprocation, Reciprocation::Get));
}

#[test]
fn delete_one_deletes_the_next_literal_key() {
    let mut st = state();
    let mut store = filled_store();
    let out = harp_resolve_step(&mut st, &mut store, &ctx(), &KeyConfig::standard(), "<del>");
    assert!(matches!(out, StepOutcome::Continue));
    assert!(matches!(st.reciprocation, Reciprocation::Delete));
    let out = harp_resolve_step(&mut st, &mut store, &ctx(), &KeyConfig::standard(), "a");
    assert!(matches!(out, StepOutcome::ContinueSaved));
    assert!(matches!(st.reciprocation, Reciprocation::Get));
    assert!(store.get_entry("harp_files", "a").is_none());
    assert!(store.get_entry("harp_files", "b").is_some());
}

#[test]
fn delete_all_clears_the_resolved_section_and_reprompts_in_set() {
    let mut st = state();
    let mut store = filled_store();
    let out = harp_resolve_step(&mut st, &mut store, &ctx(), &KeyConfig::standard(), "<backspace>");
    assert!(matches!(out, StepOutcome::ContinueSaved));
    assert!(matches!(st.reciprocation, Reciprocation::Put));
    assert!(store.get_entry("harp_files", "a").is_none());
    assert!(store.get_entry("harp_files", "b").is_none());
    assert!(store.get_entry("harp_files_/tmp/x.rs", "a").is_some());
}

#[test]
fn buffer_scope_without_path_fails_on_literal_keys() {
    let mut st = state();
    st.relativity = Relativity::Buffer;
    let bare = ResolveContext { buffer_path: None, cwd: "/work".to_string(), language: None };
    let mut store = filled_store();
    let out = harp_resolve_step(&mut st, &mut store, &bare, &KeyConfig::standard(), "a");
    assert!(matches!(
        out,
        StepOutcome::Failed(harp_store::errors::HarpError::UnpathedBuffer)
    ));
    assert!(store.get_entry("harp_files", "a").is_some());
}

#[test]
fn reciprocation_labels_match_the_status_line() {
    assert_eq!(Reciprocation::Get.label(), "get");
    assert_eq!(Reciprocation::Put.label(), "set");
    assert_eq!(Reciprocation::Delete.label(), "delete");
    assert!(matches!(Reciprocation::Get.toggle(), Reciprocation::Put));
    assert!(matches!(Reciprocation::Put.toggle(), Reciprocation::Get));
    assert!(matches!(Reciprocation::Delete.toggle(), Reciprocation::Get));
}

#[test]
fn status_line_shows_prompt_mode_and_scope() {
    let line = harp_store::protocol::status_line(
        "harp file",
        Reciprocation::Get,
        Relativity::Buffer,
    );
    assert_eq!(line, "harp file get (Buffer)");
    assert_eq!(Relativity::Global.label(), "Global");
    assert_eq!(Relativity::Directory.label(), "Directory");
    assert_eq!(Relativity::Filetype.label(), "Filetype");
}
