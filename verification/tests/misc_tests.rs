use harp_store::digits::{parse_usize, usize_to_string};
use harp_store::preview::{max_width, preview_keys, sort_keys, str_lex_le};
use harp_store::selection::{
    count_selections, goto_first_selection, goto_last_selection, random, should_quit_instead,
    surround_add_tag, toggle_line_select, LineSelectAction, SelRange, Selection,
};
use harp_store::store::Store;
use harp_store::text::{expand_tilde, parent_dir_of, strip_path_prefix, trim_ws};
use harp_store::typed::{buffer_nth, collect_files, custom_formatter, echopy, oil};

fn sel(ranges: Vec<(usize, usize)>, primary: usize) -> Selection {
    Selection {
        ranges: ranges.into_iter().map(|(anchor, head)| SelRange { anchor, head }).collect(),
        primary_index: primary,
    }
}

#[test]
fn digits_round_trip() {
    assert_eq!(usize_to_string(0), "0");
    assert_eq!(usize_to_string(7), "7");
    assert_eq!(usize_to_string(12345), "12345");
    assert_eq!(parse_usize("12345"), Some(12345));
    assert_eq!(parse_usize("007"), Some(7));
    assert_eq!(parse_usize(""), None);
    assert_eq!(parse_usize("12a"), None);
    assert_eq!(parse_usize("99999999999999999999999999999"), None);
}

#[test]
fn selection_counting_and_primary_moves() {
    let mut s = sel(vec![(0, 2), (5, 3), (8, 9)], 1);
    assert_eq!(count_selections(&s), 3);
    goto_first_selection(&mut s);
    assert_eq!(s.primary_index, 0);
    goto_last_selection(&mut s);
    assert_eq!(s.primary_index, 2);
}

#[test]
fn line_select_decisions() {
    assert_eq!(toggle_line_select("   \n"), LineSelectAction::ExtendToLineBounds);
    assert_eq!(toggle_line_select(""), LineSelectAction::ExtendToLineBounds);
    assert_eq!(toggle_line_select("  text"), LineSelectAction::TrimSelections);
    assert_eq!(toggle_line_select("text\n"), LineSelectAction::TrimSelections);
    assert_eq!(toggle_line_select("text"), LineSelectAction::ExtendToLineBounds);
}

#[test]
fn surround_wraps_each_range_with_tags() {
    let s = sel(vec![(0, 3), (10, 6)], 0);
    let (changes, out) = surround_add_tag("div", &s, 100);
    assert_eq!(changes.len(), 4);
    assert_eq!((changes[0].from, changes[0].to, changes[0].insert.as_str()), (0, 0, "<div>"));
    assert_eq!((changes[1].from, changes[1].to, changes[1].insert.as_str()), (3, 3, "</div>"));
    assert_eq!((changes[2].from, changes[2].to, changes[2].insert.as_str()), (6, 6, "<div>"));
    assert_eq!((changes[3].from, changes[3].to, changes[3].insert.as_str()), (10, 10, "</div>"));
    // surround adds 11 characters per range
    assert_eq!((out.ranges[0].anchor, out.ranges[0].head), (0, 14));
    assert_eq!((out.ranges[1].anchor, out.ranges[1].head), (21 + 11, 11 + 6));
    assert_eq!(out.primary_index, 0);
}

#[test]
fn random_keeps_ranges_and_rearranges_fragments() {
    let s = sel(vec![(0, 1), (2, 3), (4, 5)], 0);
    let fragments = vec!["a".to_string(), "b".to_string(), "c".to_string()];
    let changes = random(&s, fragments.clone());
    assert_eq!(changes.len(), 3);
    for (i, c) in changes.iter().enumerate() {
        assert_eq!(c.from, 2 * i);
        assert_eq!(c.to, 2 * i + 1);
    }
    let mut inserted: Vec<String> = changes.into_iter().map(|c| c.insert).collect();
    inserted.sort();
    assert_eq!(inserted, fragments);
}

#[test]
fn close_or_quit_decision() {
    assert!(should_quit_instead(false, false, 1));
    assert!(should_quit_instead(false, false, 0));
    assert!(!should_quit_instead(true, false, 1));
    assert!(!should_quit_instead(false, true, 1));
    assert!(!should_quit_instead(false, false, 2));
}

#[test]
fn echopy_joins_arguments() {
    assert_eq!(echopy(&vec!["a".to_string(), "b".to_string(), "c".to_string()]), "a b c");
    assert_eq!(echopy(&Vec::new()), "");
    assert_eq!(echopy(&vec!["".to_string(), "b".to_string()]), "b");
}

#[test]
fn buffer_nth_picks_positions() {
    assert_eq!(buffer_nth(Some("2"), false, 5), Ok(1));
    assert_eq!(buffer_nth(Some("2"), true, 5), Ok(3));
    assert_eq!(buffer_nth(None, false, 5), Err("no arguments provided".to_string()));
    assert_eq!(
        buffer_nth(Some("x"), false, 5),
        Err("provided argument is not an integer".to_string())
    );
    assert_eq!(
        buffer_nth(Some("0"), false, 5),
        Err("the buffer number may not be zero".to_string())
    );
    assert_eq!(buffer_nth(Some("6"), false, 5), Err("buffer 6 is out of range".to_string()));
}

#[test]
fn oil_renders_a_trimmed_listing() {
    let paths = vec![
        "/work".to_string(),
        "/work/a.rs".to_string(),
        "/work/sub/b.rs".to_string(),
    ];
    assert_eq!(collect_files(&paths, "/work"), "a.rs\nsub/b.rs\n");
    assert_eq!(oil(&paths, "/work"), "a.rs\nsub/b.rs");
}

#[test]
fn formatter_output_is_normalised() {
    assert_eq!(
        custom_formatter("no newline", Some("formatted\n".to_string())),
        Some("formatted".to_string())
    );
    assert_eq!(
        custom_formatter("no newline", Some("formatted\r\n".to_string())),
        Some("formatted".to_string())
    );
    assert_eq!(
        custom_formatter("ends\n", Some("formatted\n".to_string())),
        Some("formatted\n".to_string())
    );
    assert_eq!(custom_formatter("same", Some("same".to_string())), None);
    assert_eq!(custom_formatter("text", None), None);
}

#[test]
fn path_helpers() {
    assert_eq!(strip_path_prefix("/a/b/c.rs", "/a"), "b/c.rs");
    assert_eq!(strip_path_prefix("/a", "/a"), "");
    assert_eq!(strip_path_prefix("/ab/c", "/a"), "/ab/c");
    assert_eq!(parent_dir_of("/a/b.rs"), Some("/a".to_string()));
    assert_eq!(parent_dir_of("/a"), Some("/".to_string()));
    assert_eq!(parent_dir_of("a"), Some("".to_string()));
    assert_eq!(parent_dir_of("/"), None);
    assert_eq!(parent_dir_of(""), None);
    assert_eq!(expand_tilde("~/x", Some(&"/home/me".to_string())), "/home/me/x");
    assert_eq!(expand_tilde("~", Some(&"/home/me".to_string())), "/home/me");
    assert_eq!(expand_tilde("/x", Some(&"/home/me".to_string())), "/x");
    assert_eq!(expand_tilde("~/x", None), "~/x");
    assert_eq!(trim_ws("  a b \n"), "a b");
}

#[test]
fn preview_keys_are_sorted() {
    let mut store = Store::new_store();
    harp_store::access::harp_replace(&mut store, "s", "b", vec!["1".to_string()]);
    harp_store::access::harp_replace(&mut store, "s", "a", vec!["2".to_string()]);
    harp_store::access::harp_replace(&mut store, "s", "c", vec!["3".to_string()]);
    assert_eq!(preview_keys(&store, "s"), vec!["a", "b", "c"]);
    assert!(preview_keys(&store, "absent").is_empty());
}

#[test]
fn sorting_and_width() {
    let keys = vec!["pear".to_string(), "apple".to_string(), "fig".to_string()];
    assert_eq!(sort_keys(keys), vec!["apple", "fig", "pear"]);
    assert!(str_lex_le("abc", "abd"));
    assert!(str_lex_le("ab", "abc"));
    assert!(!str_lex_le("abd", "abc"));
    assert_eq!(max_width(&vec!["ab".to_string(), "abcd".to_string(), "a".to_string()]), 4);
    assert_eq!(max_width(&Vec::new()), 0);
}
