//! The fallback of the usage ledger: token counts read from the session
//! logs on disk.
//!
//! Walking directories and reading files is the caller's part. This module
//! says which files are worth reading and what each line of a log counts.

use crate::json::{json_model, json_parsed, member, parse, Json};
use crate::text::{blank, is_blank, text_eq, texts, trim, trimmed};
use crate::time::{parse_rfc3339_ms, rfc3339_millis};
use crate::usage::{saturated, sum_saturated};
use crate::wire::{parse_token_count_from_rollout, rollout_tokens, text_of_member};
use serde_json::Value;
use vstd::prelude::*;

verus! {

/// How deep below the directory of the sessions the logs are looked for.
pub const MAX_SCAN_DEPTH: usize = 6;

/// Whether a directory entry is a log to read: a regular file with the
/// extension `jsonl` that is not known to have been last written before
/// `cutoff`.
pub fn should_scan_file(
    is_file: bool,
    extension: Option<&str>,
    modified_ms: Option<i64>,
    cutoff: i64,
) -> (wanted: bool)
    ensures
        wanted == (is_file && (extension matches Some(ext) && ext@ == "jsonl"@) && !(
        modified_ms matches Some(modified) && modified < cutoff)),
{
    if !is_file {
        return false;
    }
    let fits = match extension {
        Some(ext) => text_eq(ext, "jsonl"),
        None => false,
    };
    if !fits {
        return false;
    }
    match modified_ms {
        Some(modified) => modified >= cutoff,
        None => true,
    }
}

/// The text of an optional string slice.
pub open spec fn slice_text(value: Option<&str>) -> Option<Seq<char>> {
    match value {
        Some(content) => Some(content@),
        None => None,
    }
}

/// The directory of the agent's data, as the components of a path: what
/// `codex_home` names, else `.codex` in the directory that `home` names,
/// else `.codex` in the one that `user_profile` names. A value counts where
/// it is set and not blank, and is taken without the white space around it.
pub open spec fn codex_home_of(
    codex_home: Option<Seq<char>>,
    home: Option<Seq<char>>,
    user_profile: Option<Seq<char>>,
) -> Option<Seq<Seq<char>>> {
    if codex_home matches Some(value) && !is_blank(value) {
        Some(seq![trimmed(codex_home->0)])
    } else if home matches Some(value) && !is_blank(value) {
        Some(seq![trimmed(home->0), ".codex"@])
    } else if user_profile matches Some(value) && !is_blank(value) {
        Some(seq![trimmed(user_profile->0), ".codex"@])
    } else {
        None
    }
}

fn usable(value: Option<&str>) -> (inner: Option<String>)
    ensures
        match inner {
            Some(text) => value matches Some(given) && !is_blank(given@) && text@ == trimmed(
                given@,
            ),
            None => !(value matches Some(given) && !is_blank(given@)),
        },
{
    match value {
        Some(given) => if blank(given) {
            None
        } else {
            Some(trim(given))
        },
        None => None,
    }
}

/// The directory of the agent's data, from the values of `CODEX_HOME`,
/// `HOME` and `USERPROFILE`.
pub fn resolve_codex_home(
    codex_home: Option<&str>,
    home: Option<&str>,
    user_profile: Option<&str>,
) -> (components: Option<Vec<String>>)
    ensures
        match components {
            Some(parts) => codex_home_of(
                slice_text(codex_home),
                slice_text(home),
                slice_text(user_profile),
            ) == Some(texts(parts@)),
            None => codex_home_of(slice_text(codex_home), slice_text(home), slice_text(user_profile))
                is None,
        },
{
    let mut parts: Vec<String> = Vec::new();
    match usable(codex_home) {
        Some(own) => {
            parts.push(own);
            proof {
                assert(texts(parts@) =~= seq![trimmed(codex_home->0@)]);
            }
            return Some(parts);
        },
        None => {},
    }
    let base = match usable(home) {
        Some(base) => base,
        None => match usable(user_profile) {
            Some(base) => base,
            None => {
                return None;
            },
        },
    };
    let ghost first = base@;
    parts.push(base);
    parts.push(".codex".to_owned());
    proof {
        assert(texts(parts@) =~= seq![first, ".codex"@]);
    }
    Some(parts)
}

/// The name of the directory, in the directory of the agent's data, that
/// holds the session logs.
pub fn sessions_dir_name() -> (name: &'static str)
    ensures
        name@ == "sessions"@,
{
    "sessions"
}

/// When an entry of a log was written: the instant that its member
/// `timestamp` denotes.
pub open spec fn entry_time(entry: Json) -> Option<i64> {
    match text_of_member(entry.get("timestamp"@)) {
        Some(written) => rfc3339_millis(written),
        None => None,
    }
}

/// The count of an entry that was written at `written`, at the cutoff
/// `cutoff`: the count where the entry has a time that is not before the
/// cutoff, and nothing else.
pub open spec fn recent_count(written: Option<i64>, cutoff: i64, tokens: Option<i64>) -> Option<
    i64,
> {
    match written {
        Some(at) => if at < cutoff {
            None
        } else {
            tokens
        },
        None => None,
    }
}

/// What an entry of a log counts at the cutoff `cutoff`: its token count, if
/// it has one and was written at or after the cutoff.
pub open spec fn entry_tokens(entry: Json, cutoff: i64) -> Option<i64> {
    recent_count(entry_time(entry), cutoff, rollout_tokens(entry))
}

/// What a line of a log counts: what the entry counts that the line holds,
/// white space around it set aside; nothing for a line that holds no JSON.
pub open spec fn line_tokens(line: Seq<char>, cutoff: i64) -> Option<i64> {
    if is_blank(line) {
        None
    } else {
        match json_parsed(trimmed(line)) {
            Some(entry) => entry_tokens(entry, cutoff),
            None => None,
        }
    }
}

/// The sum of what the lines count.
pub open spec fn lines_total(lines: Seq<Seq<char>>, cutoff: i64) -> int
    decreases lines.len(),
{
    if lines.len() == 0 {
        0
    } else {
        lines_total(lines.drop_last(), cutoff) + match line_tokens(lines.last(), cutoff) {
            Some(tokens) => tokens as int,
            None => 0,
        }
    }
}

/// Whether an entry that was written at `written` counts at the cutoff
/// `cutoff`: it needs a time, and one that is not before the cutoff.
pub fn is_recent(written: Option<i64>, cutoff: i64) -> (recent: bool)
    ensures
        recent == (written matches Some(at) && at >= cutoff),
        forall|tokens: Option<i64>|
            #[trigger] recent_count(written, cutoff, tokens) == if recent {
                tokens
            } else {
                None
            },
{
    match written {
        Some(at) => at >= cutoff,
        None => false,
    }
}

/// What an entry of a log counts at the cutoff `cutoff`.
pub fn rollout_entry_tokens(entry: &Value, cutoff: i64) -> (tokens: Option<i64>)
    ensures
        tokens == entry_tokens(json_model(*entry), cutoff),
        tokens matches Some(count) ==> count > 0,
{
    let written = match member(entry, "timestamp") {
        Some(stamp) => match stamp.as_str() {
            Some(written) => parse_rfc3339_ms(written),
            None => None,
        },
        None => None,
    };
    if is_recent(written, cutoff) {
        parse_token_count_from_rollout(entry)
    } else {
        None
    }
}

/// What a line of a log counts at the cutoff `cutoff`.
pub fn rollout_line_tokens(line: &str, cutoff: i64) -> (tokens: Option<i64>)
    ensures
        tokens == line_tokens(line@, cutoff),
        tokens matches Some(count) ==> count > 0,
{
    if blank(line) {
        return None;
    }
    let inner = trim(line);
    match parse(inner.as_str()) {
        Ok(entry) => rollout_entry_tokens(&entry, cutoff),
        Err(_) => None,
    }
}

/// A total of lines is not negative, and no larger than its number of
/// 64-bit summands allows.
proof fn lemma_lines_total_bounds(lines: Seq<Seq<char>>, cutoff: i64)
    ensures
        0 <= lines_total(lines, cutoff) <= lines.len() * (i64::MAX as int),
    decreases lines.len(),
{
    if lines.len() > 0 {
        lemma_lines_total_bounds(lines.drop_last(), cutoff);
        // a line counts what an entry counts, and that is positive or nothing
        let last = lines.last();
        if line_tokens(last, cutoff) is Some {
            let entry = json_parsed(trimmed(last))->0;
            assert(rollout_tokens(entry) matches Some(count) ==> count > 0);
        }
    }
}

/// The sum of what the lines of a log count at the cutoff `cutoff`, held at
/// the largest 64-bit total where the true sum is larger.
pub fn scan_lines(lines: &Vec<String>, cutoff: i64) -> (total: i64)
    ensures
        total == saturated(lines_total(texts(lines@), cutoff)),
        total >= 0,
{
    let ghost all = texts(lines@);
    let mut sum: i128 = 0;
    let mut i: usize = 0;
    while i < lines.len()
        invariant
            i <= lines.len(),
            all == texts(lines@),
            sum == lines_total(all.take(i as int), cutoff),
        decreases lines.len() - i,
    {
        proof {
            lemma_lines_total_bounds(all.take(i as int), cutoff);
            assert(all.take(i + 1).drop_last() == all.take(i as int));
            assert(all.take(i + 1).last() == lines@[i as int]@);
        }
        match rollout_line_tokens(lines[i].as_str(), cutoff) {
            Some(tokens) => {
                sum = sum + tokens as i128;
            },
            None => {},
        }
        i += 1;
    }
    proof {
        assert(all.take(i as int) == all);
        lemma_lines_total_bounds(all, cutoff);
    }
    if sum > i64::MAX as i128 {
        i64::MAX
    } else {
        sum as i64
    }
}

/// The total of two scanned totals, held to the range of 64 bits where the
/// true sum leaves it.
pub fn add_scanned(total: i64, more: i64) -> (sum: i64)
    ensures
        sum == saturated(total + more),
        total >= 0 && more >= 0 ==> sum >= 0,
{
    sum_saturated(total, more)
}

} // verus!
