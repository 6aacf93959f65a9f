use codexola::text::{
    blank, chars_of, comes_before, find, has_prefix, matches_at, range_eq, replace_char,
    skip_leading, skip_trailing, strip_bounds, text_eq, text_of, trim, CharClass,
};

fn chars(text: &str) -> Vec<char> {
    text.chars().collect()
}

#[test]
fn chars_and_text_go_back_and_forth() {
    assert_eq!(chars_of("héllo"), vec!['h', 'é', 'l', 'l', 'o']);
    assert_eq!(chars_of(""), Vec::<char>::new());
    let all = chars("héllo wörld");
    assert_eq!(text_of(&all, 0, all.len()), "héllo wörld");
    assert_eq!(text_of(&all, 6, 11), "wörld");
    assert_eq!(text_of(&all, 3, 3), "");
}

#[test]
fn text_eq_compares_characters() {
    assert!(text_eq("", ""));
    assert!(text_eq("abc", "abc"));
    assert!(text_eq("ünï", "ünï"));
    assert!(!text_eq("abc", "abd"));
    assert!(!text_eq("abc", "ab"));
    assert!(!text_eq("ab", "abc"));
    assert!(!text_eq("", "a"));
    assert!(!text_eq("a", ""));
}

#[test]
fn range_eq_compares_a_part() {
    let all = chars("key: value");
    assert!(range_eq(&all, 0, 3, &chars("key")));
    assert!(range_eq(&all, 5, 10, &chars("value")));
    assert!(range_eq(&all, 2, 2, &chars("")));
    assert!(!range_eq(&all, 0, 3, &chars("kay")));
    assert!(!range_eq(&all, 0, 3, &chars("ke")));
}

#[test]
fn classes_hold_their_characters() {
    assert!(CharClass::Space.test(' '));
    assert!(CharClass::Space.test('\t'));
    assert!(CharClass::Space.test('\n'));
    assert!(CharClass::Space.test('\u{a0}'));
    assert!(CharClass::Space.test('\u{3000}'));
    assert!(!CharClass::Space.test('x'));
    assert!(!CharClass::Space.test('\u{200b}'));
    assert!(CharClass::Only('"').test('"'));
    assert!(!CharClass::Only('"').test('\''));
    assert!(CharClass::Either('\r', '\n').test('\r'));
    assert!(CharClass::Either('\r', '\n').test('\n'));
    assert!(!CharClass::Either('\r', '\n').test(' '));
}

#[test]
fn stripping_finds_the_bounds() {
    let all = chars("  ab c \t");
    assert_eq!(skip_leading(&all, 0, all.len(), CharClass::Space), 2);
    assert_eq!(skip_trailing(&all, 0, all.len(), CharClass::Space), 6);
    assert_eq!(strip_bounds(&all, 0, all.len(), CharClass::Space), (2, 6));
    assert_eq!(strip_bounds(&all, 3, 5, CharClass::Space), (3, 4));
    let spaces = chars("   ");
    assert_eq!(strip_bounds(&spaces, 0, 3, CharClass::Space), (3, 3));
    assert_eq!(skip_trailing(&spaces, 1, 3, CharClass::Space), 1);
    let quoted = chars("\"\"x\"");
    assert_eq!(strip_bounds(&quoted, 0, 4, CharClass::Only('"')), (2, 3));
}

#[test]
fn trim_takes_white_space_from_both_ends() {
    assert_eq!(trim("  hello world \n"), "hello world");
    assert_eq!(trim("\u{a0}x\u{2003}"), "x");
    assert_eq!(trim("x"), "x");
    assert_eq!(trim(""), "");
    assert_eq!(trim(" \t\r\n"), "");
    for text in ["", " a ", "\ta\tb\t", "\u{feff}a", "  "] {
        assert_eq!(trim(text), text.trim());
    }
}

#[test]
fn blank_means_white_space_only() {
    assert!(blank(""));
    assert!(blank(" \t\r\n"));
    assert!(!blank(" . "));
    assert!(!blank("\u{200b}"));
}

#[test]
fn find_looks_for_a_part() {
    let all = chars("usr/bin/env node");
    assert!(find(&all, &chars("node")));
    assert!(find(&all, &chars("usr")));
    assert!(find(&all, &chars("")));
    assert!(find(&all, &chars("usr/bin/env node")));
    assert!(!find(&all, &chars("nodes")));
    assert!(!find(&all, &chars("Node")));
    assert!(!find(&chars(""), &chars("a")));
    assert!(find(&chars(""), &chars("")));
    assert!(find(&chars("aab"), &chars("ab")));
}

#[test]
fn matches_at_looks_at_one_place() {
    let all = chars("#!#!x");
    assert!(matches_at(&all, &chars("#!"), 0));
    assert!(matches_at(&all, &chars("#!"), 2));
    assert!(!matches_at(&all, &chars("#!"), 1));
    assert!(!matches_at(&all, &chars("#!"), 4));
    assert!(!matches_at(&all, &chars("#!"), 9));
    assert!(matches_at(&all, &chars(""), 5));
    assert!(!matches_at(&all, &chars(""), 6));
}

#[test]
fn has_prefix_looks_at_the_start() {
    assert!(has_prefix(&chars("src/main.rs"), &chars("src")));
    assert!(has_prefix(&chars("src"), &chars("src")));
    assert!(has_prefix(&chars("src"), &chars("")));
    assert!(!has_prefix(&chars("sr"), &chars("src")));
    assert!(!has_prefix(&chars("a/src"), &chars("src")));
}

#[test]
fn replace_char_replaces_every_one() {
    assert_eq!(replace_char("a\\b\\c", '\\', '/'), "a/b/c");
    assert_eq!(replace_char("", 'a', 'b'), "");
    assert_eq!(replace_char("aaa", 'a', 'b'), "bbb");
    assert_eq!(replace_char("xyz", 'a', 'b'), "xyz");
}

#[test]
fn order_of_strings_goes_character_by_character() {
    let cases = ["", "a", "ab", "b", "B", "é", "zz", "a b", "ab\u{10000}", "\u{ffff}"];
    for a in cases {
        for b in cases {
            assert_eq!(comes_before(&chars(a), &chars(b)), a < b, "{:?} {:?}", a, b);
        }
    }
}
