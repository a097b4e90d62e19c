use harp_store::expand::{expand_expansions, replace_all, ExpansionContext};

fn ctx() -> ExpansionContext {
    ExpansionContext {
        buffer_path: Some("/home/me/work/src/main.rs".to_string()),
        cwd: "/home/me/work".to_string(),
        language: Some("rust".to_string()),
        git_root: Some("/home/me/work".to_string()),
        home: Some("/home/me".to_string()),
    }
}

#[test]
fn plain_text_is_unchanged() {
    assert_eq!(expand_expansions("write file", &ctx()), "write file");
}

#[test]
fn path_selector_expands() {
    assert_eq!(expand_expansions("open %p", &ctx()), "open /home/me/work/src/main.rs");
}

#[test]
fn relative_selector_strips_the_cwd() {
    assert_eq!(expand_expansions("open %r", &ctx()), "open src/main.rs");
}

#[test]
fn extension_and_name_selectors() {
    assert_eq!(expand_expansions("%e", &ctx()), "rs");
    assert_eq!(expand_expansions("%n", &ctx()), "main.rs");
}

#[test]
fn git_selectors() {
    assert_eq!(expand_expansions("%g", &ctx()), "/home/me/work");
    assert_eq!(expand_expansions("%q", &ctx()), "src/main.rs");
}

#[test]
fn language_head_and_cwd_selectors() {
    assert_eq!(expand_expansions("%l", &ctx()), "rust");
    assert_eq!(expand_expansions("%h", &ctx()), "/home/me/work/src");
    assert_eq!(expand_expansions("%w", &ctx()), "/home/me/work");
}

#[test]
fn language_defaults_to_text() {
    let mut c = ctx();
    c.language = None;
    assert_eq!(expand_expansions("%l", &c), "text");
}

#[test]
fn uppercase_selectors_abbreviate_home() {
    assert_eq!(expand_expansions("%P", &ctx()), "~/work/src/main.rs");
    assert_eq!(expand_expansions("%W", &ctx()), "~/work");
}

#[test]
fn doubled_percent_escapes_the_selector() {
    assert_eq!(expand_expansions("%%p", &ctx()), "%p");
}

#[test]
fn unknown_selector_keeps_the_percent() {
    assert_eq!(expand_expansions("100%x", &ctx()), "100%x");
}

#[test]
fn trailing_percent_is_literal() {
    assert_eq!(expand_expansions("100%", &ctx()), "100%");
}

#[test]
fn missing_path_expands_to_nothing() {
    let mut c = ctx();
    c.buffer_path = None;
    assert_eq!(expand_expansions("[%p][%e][%n]", &c), "[][][]");
}

#[test]
fn replace_all_is_left_to_right_without_overlap() {
    assert_eq!(replace_all("aaa", "aa", "b"), "ba");
    assert_eq!(replace_all("abcabc", "b", "xy"), "axycaxyc");
    assert_eq!(replace_all("abc", "", "x"), "abc");
    assert_eq!(replace_all("abc", "zzz", "x"), "abc");
}
