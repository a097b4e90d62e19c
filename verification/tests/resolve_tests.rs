use harp_store::entry::Entry;
use harp_store::errors::HarpError;
use harp_store::resolve::{
    eval_harp_relativity, relativity_section_name, resolve, EvalOutcome, Relativity,
    ResolveContext,
};
use harp_store::store::Store;

fn ctx_with_path(path: &str) -> ResolveContext {
    ResolveContext {
        buffer_path: Some(path.to_string()),
        cwd: "/work".to_string(),
        language: Some("rust".to_string()),
    }
}

fn ctx_bare() -> ResolveContext {
    ResolveContext { buffer_path: None, cwd: "/work".to_string(), language: None }
}

#[test]
fn buffer_relativity_appends_the_path() {
    let r = resolve("harp_files", Relativity::Buffer, &ctx_with_path("/a/b.rs")).unwrap();
    assert_eq!(r, "harp_files_/a/b.rs");
}

#[test]
fn global_relativity_ignores_the_context() {
    let a = resolve("harp_files", Relativity::Global, &ctx_with_path("/a/b.rs")).unwrap();
    let b = resolve("harp_files", Relativity::Global, &ctx_bare()).unwrap();
    assert_eq!(a, "harp_files");
    assert_eq!(b, "harp_files");
}

#[test]
fn directory_relativity_appends_the_cwd() {
    let r = resolve("harp_dirs", Relativity::Directory, &ctx_bare()).unwrap();
    assert_eq!(r, "harp_dirs_/work");
}

#[test]
fn filetype_relativity_appends_the_language() {
    let r = resolve("harp_files", Relativity::Filetype, &ctx_with_path("/a/b.rs")).unwrap();
    assert_eq!(r, "harp_files!rust");
    let d = resolve("harp_files", Relativity::Filetype, &ctx_bare()).unwrap();
    assert_eq!(d, "harp_files!text");
}

#[test]
fn buffer_relativity_needs_a_path() {
    assert!(matches!(
        resolve("harp_files", Relativity::Buffer, &ctx_bare()),
        Err(HarpError::UnpathedBuffer)
    ));
}

#[test]
fn bare_token_persists_the_default() {
    let mut store = Store::new_store();
    let out = eval_harp_relativity(&mut store, &ctx_bare(), "harp_files", ".");
    assert!(matches!(out, EvalOutcome::DefaultChanged));
    let rsec = relativity_section_name("harp_files");
    assert_eq!(rsec, "harp_files!!relativity");
    match store.get_entry(&rsec, "current").expect("token must be stored") {
        Entry::Record(rec) => assert_eq!(rec.extra.as_deref(), Some(".")),
        Entry::List(_) => panic!("expected a record"),
    }
}

#[test]
fn persisted_default_scopes_later_input() {
    let mut store = Store::new_store();
    let ctx = ctx_bare();
    eval_harp_relativity(&mut store, &ctx, "harp_files", ".");
    match eval_harp_relativity(&mut store, &ctx, "harp_files", "x") {
        EvalOutcome::Resolved { section, register } => {
            assert_eq!(section, "harp_files_/work");
            assert_eq!(register, "x");
        }
        _ => panic!("expected a resolved pair"),
    }
}

#[test]
fn token_prefix_overrides_the_default() {
    let mut store = Store::new_store();
    let ctx = ctx_with_path("/a/b.rs");
    eval_harp_relativity(&mut store, &ctx, "harp_files", ".");
    match eval_harp_relativity(&mut store, &ctx, "harp_files", ",x") {
        EvalOutcome::Resolved { section, register } => {
            assert_eq!(section, "harp_files_/a/b.rs");
            assert_eq!(register, "x");
        }
        _ => panic!("expected a resolved pair"),
    }
}

#[test]
fn unprefixed_input_defaults_to_global() {
    let mut store = Store::new_store();
    match eval_harp_relativity(&mut store, &ctx_bare(), "harp_files", "key") {
        EvalOutcome::Resolved { section, register } => {
            assert_eq!(section, "harp_files");
            assert_eq!(register, "key");
        }
        _ => panic!("expected a resolved pair"),
    }
}

#[test]
fn buffer_prefix_without_path_fails() {
    let mut store = Store::new_store();
    match eval_harp_relativity(&mut store, &ctx_bare(), "harp_files", ",x") {
        EvalOutcome::Failed(HarpError::UnpathedBuffer) => {}
        _ => panic!("expected the unpathed buffer error"),
    }
}

#[test]
fn corrupt_persisted_token_reads_as_global() {
    let mut store = Store::new_store();
    harp_store::access::harp_update(
        &mut store,
        "harp_files!!relativity",
        "current",
        harp_store::entry::HarpInput {
            path: None,
            line: None,
            column: None,
            extra: Some("xyz".to_string()),
        },
    );
    match eval_harp_relativity(&mut store, &ctx_bare(), "harp_files", "k") {
        EvalOutcome::Resolved { section, register } => {
            assert_eq!(section, "harp_files");
            assert_eq!(register, "k");
        }
        _ => panic!("expected a resolved pair"),
    }
}
