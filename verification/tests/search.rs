use codexola::search::{
    keeps_entry, matches_query, normalize_query, rank_matches, reached_cap, search_limits,
    SearchLimits, DEFAULT_LIMIT, MIN_SCAN,
};

fn strings(values: &[&str]) -> Vec<String> {
    values.iter().map(|v| v.to_string()).collect()
}

#[test]
fn limits_follow_the_request() {
    assert_eq!(DEFAULT_LIMIT, 200);
    assert_eq!(MIN_SCAN, 200);
    assert_eq!(search_limits(None), SearchLimits { limit: 200, max_scan: 1000 });
    assert_eq!(search_limits(Some(10)), SearchLimits { limit: 10, max_scan: 200 });
    assert_eq!(search_limits(Some(40)), SearchLimits { limit: 40, max_scan: 200 });
    assert_eq!(search_limits(Some(41)), SearchLimits { limit: 41, max_scan: 205 });
    assert_eq!(search_limits(Some(0)), SearchLimits { limit: 0, max_scan: 200 });
    assert_eq!(
        search_limits(Some(usize::MAX)),
        SearchLimits { limit: usize::MAX, max_scan: usize::MAX }
    );
    assert_eq!(
        search_limits(Some(usize::MAX / 5 + 1)),
        SearchLimits { limit: usize::MAX / 5 + 1, max_scan: usize::MAX }
    );
}

#[test]
fn query_is_trimmed_and_lowered() {
    assert_eq!(normalize_query("  Main.RS "), Some("main.rs".to_string()));
    assert_eq!(normalize_query("ÄÖ"), Some("äö".to_string()));
    assert_eq!(normalize_query("a b"), Some("a b".to_string()));
    assert_eq!(normalize_query(""), None);
    assert_eq!(normalize_query(" \t\n"), None);
}

#[test]
fn match_ignores_the_case_of_the_path() {
    assert!(matches_query("src/Main.rs", "main"));
    assert!(matches_query("SRC/MAIN.RS", "src/main"));
    assert!(matches_query("a", ""));
    assert!(!matches_query("src/main.rs", "Main"));
    assert!(!matches_query("src/main.rs", "lib"));
    assert!(!matches_query("", "x"));
}

#[test]
fn matches_that_begin_with_the_query_come_first() {
    let found = strings(&["src/main.rs", "main.rs", "docs/Main.md", "Makefile", "MAIN.c", "a/main"]);
    assert_eq!(
        rank_matches(found, "main", 10),
        strings(&["MAIN.c", "main.rs", "a/main", "docs/Main.md", "Makefile", "src/main.rs"])
    );
}

#[test]
fn matches_that_sort_alike_keep_their_order() {
    let found = strings(&["b/Readme", "a/README", "a/readme", "A/ReadMe"]);
    assert_eq!(
        rank_matches(found, "a/", 10),
        strings(&["a/README", "a/readme", "A/ReadMe", "b/Readme"])
    );
}

#[test]
fn results_are_cut_at_the_limit() {
    let found = strings(&["c", "a", "b"]);
    assert_eq!(rank_matches(found.clone(), "x", 2), strings(&["a", "b"]));
    assert_eq!(rank_matches(found.clone(), "x", 3), strings(&["a", "b", "c"]));
    assert_eq!(rank_matches(found.clone(), "x", 0), Vec::<String>::new());
    assert_eq!(rank_matches(Vec::new(), "x", 5), Vec::<String>::new());
}

#[test]
fn walk_leaves_out_three_directories_below_the_root() {
    assert!(keeps_entry(0, true, Some(".git")));
    assert!(keeps_entry(0, true, None));
    assert!(!keeps_entry(1, true, Some(".git")));
    assert!(!keeps_entry(3, true, Some("node_modules")));
    assert!(!keeps_entry(2, true, Some(".codex")));
    assert!(keeps_entry(1, false, Some(".git")));
    assert!(keeps_entry(1, true, Some("src")));
    assert!(keeps_entry(1, true, None));
}

#[test]
fn walk_stops_at_the_cap() {
    let limits = search_limits(Some(50));
    assert!(!reached_cap(0, limits));
    assert!(!reached_cap(249, limits));
    assert!(reached_cap(250, limits));
    assert!(reached_cap(251, limits));
}
