//! The search for files by name: what counts as a match, how many matches
//! are collected, and in which order they are shown.
//!
//! Walking the workspace is the caller's part.

use crate::paths::{is_excluded_dir, is_excluded_name};
use crate::sorting::{is_sorted_by, keys_of, sort_by_keys, Key, SortKey};
use crate::text::{
    chars_of, contains, find, has_prefix, lowercase, starts_with, strip_bounds, text_of,
    to_lowercase, trimmed, CharClass,
};
use vstd::prelude::*;

verus! {

/// How many results a search gives where the caller names no limit.
pub const DEFAULT_LIMIT: usize = 200;

/// How many matches a search collects at least before it stops walking.
pub const MIN_SCAN: usize = 200;

/// How many results a search gives, and how many matches it collects before
/// it stops walking.
#[derive(Clone, Copy, Debug, PartialEq, Eq)]
pub struct SearchLimits {
    pub limit: usize,
    pub max_scan: usize,
}

/// The limit that counts: the one asked for, and 200 where none is.
pub open spec fn limit_of(limit: Option<usize>) -> usize {
    match limit {
        Some(count) => count,
        None => DEFAULT_LIMIT,
    }
}

/// How many matches are collected for a limit: five times the limit, as far
/// as that can be counted, and at least 200.
pub open spec fn scan_cap(limit: usize) -> int {
    let five = if limit * 5 > usize::MAX {
        usize::MAX as int
    } else {
        limit * 5
    };
    if five < MIN_SCAN {
        MIN_SCAN as int
    } else {
        five
    }
}

/// What a search looks for: the query in lower case, without the white
/// space around it; nothing where that is empty.
pub open spec fn query_of(query: Seq<char>) -> Option<Seq<char>> {
    let wanted = lowercase(trimmed(query));
    if wanted.len() == 0 {
        None
    } else {
        Some(wanted)
    }
}

/// Whether a path matches: its lower case holds the query.
pub open spec fn is_match(path: Seq<char>, query: Seq<char>) -> bool {
    contains(lowercase(path), query)
}

/// What a match is sorted by: matches that begin with the query come first,
/// and within each group the lower case of the path decides.
pub open spec fn match_key(path: Seq<char>, query: Seq<char>) -> Key {
    Key {
        rank: if starts_with(lowercase(path), query) {
            0u8
        } else {
            1u8
        },
        text: lowercase(path),
    }
}

/// The keys of a list of matches.
pub open spec fn match_keys(matches: Seq<String>, query: Seq<char>) -> Seq<Key> {
    matches.map_values(|path: String| match_key(path@, query))
}

/// Whether `ranked` is the result of a search: the first `limit` of the
/// matches in sorted order, matches that sort alike in the order in which
/// they were found.
pub open spec fn is_ranking(
    matches: Seq<String>,
    query: Seq<char>,
    limit: usize,
    ranked: Seq<String>,
) -> bool {
    exists|sorted: Seq<String>|
        {
            &&& #[trigger] is_sorted_by(matches, match_keys(matches, query), sorted)
            &&& ranked == if limit < sorted.len() {
                sorted.take(limit as int)
            } else {
                sorted
            }
        }
}

/// How many results a search gives, and how many matches it collects.
pub fn search_limits(limit: Option<usize>) -> (limits: SearchLimits)
    ensures
        limits.limit == limit_of(limit),
        limits.max_scan == scan_cap(limits.limit),
        limits.max_scan >= limits.limit,
{
    let limit = match limit {
        Some(count) => count,
        None => DEFAULT_LIMIT,
    };
    let five = match limit.checked_mul(5) {
        Some(product) => product,
        None => usize::MAX,
    };
    let max_scan = if five < MIN_SCAN {
        MIN_SCAN
    } else {
        five
    };
    SearchLimits { limit, max_scan }
}

/// What a search looks for. A query of white space alone has no results.
pub fn normalize_query(query: &str) -> (wanted: Option<String>)
    ensures
        match wanted {
            Some(found) => query_of(query@) == Some(found@),
            None => query_of(query@) is None,
        },
{
    let chars = chars_of(query);
    proof {
        assert(chars@.subrange(0, chars.len() as int) == chars@);
    }
    let (from, to) = strip_bounds(chars.as_slice(), 0, chars.len(), CharClass::Space);
    let inner = text_of(chars.as_slice(), from, to);
    let lower = to_lowercase(inner.as_str());
    if lower.as_str().is_empty() {
        None
    } else {
        Some(lower)
    }
}

/// Whether a path matches the query.
pub fn matches_query(path: &str, query: &str) -> (matched: bool)
    ensures
        matched == is_match(path@, query@),
{
    let lower = to_lowercase(path);
    let lower_chars = chars_of(lower.as_str());
    let query_chars = chars_of(query);
    find(lower_chars.as_slice(), query_chars.as_slice())
}

/// The results of a search, from the matches in the order in which they
/// were found.
pub fn rank_matches(matches: Vec<String>, query: &str, limit: usize) -> (ranked: Vec<String>)
    ensures
        is_ranking(matches@, query@, limit, ranked@),
        ranked@.len() <= limit,
        ranked@.len() <= matches@.len(),
{
    let query_chars = chars_of(query);
    let mut keys: Vec<SortKey> = Vec::new();
    let mut i: usize = 0;
    while i < matches.len()
        invariant
            i <= matches.len(),
            query_chars@ == query@,
            keys@.len() == i,
            forall|k: int| 0 <= k < i ==> (#[trigger] keys@[k])@ == match_key(matches@[k]@, query@),
        decreases matches.len() - i,
    {
        let lower = to_lowercase(matches[i].as_str());
        let text = chars_of(lower.as_str());
        let rank: u8 = if has_prefix(text.as_slice(), query_chars.as_slice()) {
            0
        } else {
            1
        };
        keys.push(SortKey { rank, text });
        i += 1;
    }
    proof {
        assert(keys_of(keys@) =~= match_keys(matches@, query@));
    }
    let mut ranked = sort_by_keys(matches, &keys);
    let ghost sorted = ranked@;
    ranked.truncate(limit);
    proof {
        assert(is_sorted_by(matches@, match_keys(matches@, query@), sorted));
        if limit < sorted.len() {
            assert(ranked@ == sorted.take(limit as int));
        } else {
            assert(ranked@ =~= sorted);
        }
    }
    ranked
}

/// Whether the walk goes into an entry, or lists it: the root of the walk
/// always, and every other entry unless it is a directory that is left out
/// by its name.
pub fn keeps_entry(depth: usize, is_dir: bool, file_name: Option<&str>) -> (kept: bool)
    ensures
        kept == (depth == 0 || !(is_dir && match file_name {
            Some(name) => is_excluded_name(name@),
            None => false,
        })),
{
    if depth == 0 {
        return true;
    }
    !(is_dir && is_excluded_dir(file_name))
}

/// Whether the walk stops: when as many matches are collected as the limits
/// allow.
pub fn reached_cap(collected: usize, limits: SearchLimits) -> (full: bool)
    ensures
        full == (collected >= limits.max_scan),
{
    collected >= limits.max_scan
}

} // verus!
