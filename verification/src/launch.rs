//! How an agent server is launched: which binary, through which
//! interpreter, with which arguments.
//!
//! Nothing here touches the file system. The caller reads what is asked of
//! it (the first line of a file, whether a file can be executed) and hands
//! it in.

use crate::text::{
    chars_of, contains, find, has_prefix, lowercase, matches_at, occurs_at, starts_with, strip,
    strip_bounds, strip_end, text_of, texts, to_lowercase, trimmed, CharClass,
};
use vstd::prelude::*;

verus! {

/// `text` without every `prefix` that it begins with, one after the other.
pub open spec fn without_prefixes(text: Seq<char>, prefix: Seq<char>) -> Seq<char>
    decreases text.len(),
{
    if prefix.len() > 0 && starts_with(text, prefix) {
        without_prefixes(text.skip(prefix.len() as int), prefix)
    } else {
        text
    }
}

/// Whether the first line of a script asks for Node: it begins with `#!`,
/// and what follows names `node`, in any case of letters.
pub open spec fn shebang_names_node(line: Seq<char>) -> bool {
    starts_with(line, "#!"@) && contains(
        lowercase(trimmed(without_prefixes(line, "#!"@))),
        "node"@,
    )
}

/// The arguments that start an agent server.
pub open spec fn server_args(bypass_sandbox: bool, web_search: bool) -> Seq<Seq<char>> {
    (if bypass_sandbox {
        seq!["--dangerously-bypass-approvals-and-sandbox"@]
    } else {
        Seq::empty()
    }) + (if web_search {
        seq!["--enable"@, "web_search_request"@]
    } else {
        Seq::empty()
    }) + seq!["app-server"@]
}

/// A command line.
pub struct LaunchPlan {
    pub program: String,
    pub args: Vec<String>,
}

/// Why a binary is refused.
#[derive(Clone, Copy, Debug, PartialEq, Eq)]
pub enum BinaryError {
    /// No path was given.
    PathRequired,
    /// The path does not lead to a file.
    NotAFile,
    /// The file may not be executed.
    NotExecutable,
}

impl BinaryError {
    /// The error as it is shown.
    pub fn message(&self) -> (shown: &'static str)
        ensures
            shown@ == match self {
                BinaryError::PathRequired => "Codex binary path is required."@,
                BinaryError::NotAFile => "Binary path must point to a file."@,
                BinaryError::NotExecutable => "Binary is not executable."@,
            },
    {
        match self {
            BinaryError::PathRequired => "Codex binary path is required.",
            BinaryError::NotAFile => "Binary path must point to a file.",
            BinaryError::NotExecutable => "Binary is not executable.",
        }
    }
}

proof fn lemma_occurs_at_is_prefix(text: Seq<char>, prefix: Seq<char>, at: int)
    requires
        0 <= at <= text.len(),
    ensures
        occurs_at(text, prefix, at) == starts_with(text.skip(at), prefix),
{
    if at + prefix.len() <= text.len() {
        assert(text.skip(at).take(prefix.len() as int) =~= text.subrange(at, at + prefix.len()));
    }
}

/// Whether the first line of a script asks for Node.
pub fn shebang_requires_node(line: &str) -> (needed: bool)
    ensures
        needed == shebang_names_node(line@),
{
    let chars = chars_of(line);
    let marker = chars_of("#!");
    proof {
        reveal_strlit("#!");
        assert(chars@.skip(0) == chars@);
    }
    if !has_prefix(chars.as_slice(), marker.as_slice()) {
        return false;
    }
    let mut start: usize = 0;
    while matches_at(chars.as_slice(), marker.as_slice(), start)
        invariant
            start <= chars.len(),
            marker@.len() == 2,
            marker@ == "#!"@,
            without_prefixes(chars@, marker@) == without_prefixes(chars@.skip(start as int), marker@),
        decreases chars.len() - start,
    {
        proof {
            lemma_occurs_at_is_prefix(chars@, marker@, start as int);
            assert(chars@.skip(start as int).skip(2) == chars@.skip(start + 2));
        }
        start += 2;
    }
    proof {
        lemma_occurs_at_is_prefix(chars@, marker@, start as int);
        assert(chars@.skip(start as int) == chars@.subrange(start as int, chars.len() as int));
    }
    let (from, to) = strip_bounds(chars.as_slice(), start, chars.len(), CharClass::Space);
    let inner = text_of(chars.as_slice(), from, to);
    let lower = to_lowercase(inner.as_str());
    let lower_chars = chars_of(lower.as_str());
    let node = chars_of("node");
    find(lower_chars.as_slice(), node.as_slice())
}

/// The first line of a file, from what a read of one line gave: nothing for
/// an empty read, else the line without the line break at its end.
pub fn first_line(read: &str) -> (line: Option<String>)
    ensures
        line matches Some(text) ==> text@ == strip_end(read@, CharClass::Either('\r', '\n')),
        line is None <==> read@.len() == 0,
{
    let chars = chars_of(read);
    if chars.len() == 0 {
        return None;
    }
    proof {
        assert(chars@.subrange(0, chars.len() as int) == chars@);
    }
    let end = crate::text::skip_trailing(
        chars.as_slice(),
        0,
        chars.len(),
        CharClass::Either('\r', '\n'),
    );
    Some(text_of(chars.as_slice(), 0, end))
}

/// Whether a binary has to be run through Node, from the first line of its
/// file, if that could be read.
pub fn requires_node(first_line: Option<&str>) -> (needed: bool)
    ensures
        needed == match first_line {
            Some(line) => shebang_names_node(line@),
            None => false,
        },
{
    match first_line {
        Some(line) => shebang_requires_node(line),
        None => false,
    }
}

/// Whether a file may be executed: it is a regular file and, where the
/// system knows permission bits, one of its execute bits is set.
pub fn is_executable(is_file: bool, unix_mode: Option<u32>) -> (executable: bool)
    ensures
        executable == (is_file && match unix_mode {
            Some(mode) => mode & 0o111 != 0,
            None => true,
        }),
{
    if !is_file {
        return false;
    }
    match unix_mode {
        Some(mode) => mode & 0o111 != 0,
        None => true,
    }
}

/// The judgement on a binary that exists.
pub fn validate_binary(is_file: bool, unix_mode: Option<u32>) -> (verdict: Result<(), BinaryError>)
    ensures
        verdict == if !is_file {
            Err::<(), BinaryError>(BinaryError::NotAFile)
        } else if unix_mode matches Some(mode) && mode & 0o111 == 0 {
            Err(BinaryError::NotExecutable)
        } else {
            Ok(())
        },
{
    if !is_file {
        return Err(BinaryError::NotAFile);
    }
    match unix_mode {
        Some(mode) => if mode & 0o111 == 0 {
            Err(BinaryError::NotExecutable)
        } else {
            Ok(())
        },
        None => Ok(()),
    }
}

/// The path that a user typed for a binary, without white space around it
/// and without the double quotes, then the single quotes, around that.
pub open spec fn sanitized(path: Seq<char>) -> Seq<char> {
    strip(strip(trimmed(path), CharClass::Only('"')), CharClass::Only('\''))
}

/// The path of a binary as the user typed it, made usable. A path of white
/// space alone is refused.
pub fn sanitize_binary_path(path: &str) -> (clean: Result<String, BinaryError>)
    ensures
        match clean {
            Ok(text) => trimmed(path@).len() > 0 && text@ == sanitized(path@),
            Err(error) => trimmed(path@).len() == 0 && error == BinaryError::PathRequired,
        },
{
    let chars = chars_of(path);
    let (a, b) = strip_bounds(chars.as_slice(), 0, chars.len(), CharClass::Space);
    proof {
        assert(chars@.subrange(0, chars.len() as int) == chars@);
    }
    if a == b {
        return Err(BinaryError::PathRequired);
    }
    let (c, d) = strip_bounds(chars.as_slice(), a, b, CharClass::Only('"'));
    let (e, f) = strip_bounds(chars.as_slice(), c, d, CharClass::Only('\''));
    Ok(text_of(chars.as_slice(), e, f))
}

/// The Node binary to suggest: the file `node` beside the agent's binary,
/// if the binary's path has a directory and that file may be executed.
pub fn suggest_node_path(sibling: Option<String>, sibling_is_executable: bool) -> (suggested:
    Option<String>)
    ensures
        suggested == if sibling_is_executable {
            sibling
        } else {
            None
        },
{
    match sibling {
        Some(candidate) => if sibling_is_executable {
            Some(candidate)
        } else {
            None
        },
        None => None,
    }
}

/// Whether a Node binary beside the agent's binary is looked for: when the
/// binary needs Node and none is configured.
pub fn needs_suggestion(configured: &Option<String>, needs_node: bool) -> (wanted: bool)
    ensures
        wanted == (needs_node && configured is None),
{
    needs_node && configured.is_none()
}

/// The binary to launch: the one of the workspace, else the one of the
/// settings, else `codex`.
pub fn choose_binary(workspace_bin: Option<&str>, settings_bin: Option<&str>) -> (binary: String)
    ensures
        binary@ == match workspace_bin {
            Some(own) => own@,
            None => match settings_bin {
                Some(shared) => shared@,
                None => "codex"@,
            },
        },
{
    match workspace_bin {
        Some(own) => own.to_owned(),
        None => match settings_bin {
            Some(shared) => shared.to_owned(),
            None => "codex".to_owned(),
        },
    }
}

/// The Node binary to run a script with: the configured one, and where none
/// is configured and the script needs Node, the suggested one.
pub fn choose_node(configured: Option<String>, needs_node: bool, suggested: Option<String>) -> (node:
    Option<String>)
    ensures
        node == if configured is Some || !needs_node {
            configured
        } else {
            suggested
        },
{
    match configured {
        Some(path) => Some(path),
        None => if needs_node {
            suggested
        } else {
            None
        },
    }
}

/// The arguments that start an agent server: the switch that lifts the
/// sandbox and the one that enables web search, each where it is asked for,
/// then `app-server`.
pub fn server_arguments(bypass_sandbox: bool, web_search: bool) -> (args: Vec<String>)
    ensures
        texts(args@) == server_args(bypass_sandbox, web_search),
{
    let mut args: Vec<String> = Vec::new();
    if bypass_sandbox {
        args.push("--dangerously-bypass-approvals-and-sandbox".to_owned());
    }
    if web_search {
        args.push("--enable".to_owned());
        args.push("web_search_request".to_owned());
    }
    args.push("app-server".to_owned());
    proof {
        assert(texts(args@) =~= server_args(bypass_sandbox, web_search));
    }
    args
}

/// The command line of a session's server. A script that needs Node is
/// handed to the Node binary as its first argument, where one is known;
/// every other binary is run as it is.
pub fn launch_plan(
    binary: String,
    node: Option<String>,
    needs_node: bool,
    bypass_sandbox: bool,
    web_search: bool,
) -> (plan: LaunchPlan)
    ensures
        needs_node && node is Some ==> plan.program == node->0 && texts(plan.args@) == seq![
            binary@,
        ] + server_args(bypass_sandbox, web_search),
        !(needs_node && node is Some) ==> plan.program == binary && texts(plan.args@)
            == server_args(bypass_sandbox, web_search),
{
    let mut tail = server_arguments(bypass_sandbox, web_search);
    if needs_node {
        match node {
            Some(interpreter) => {
                let mut args: Vec<String> = Vec::new();
                args.push(binary);
                let ghost head = args@;
                let ghost rest = tail@;
                args.append(&mut tail);
                proof {
                    assert(args@ == head + rest);
                    assert(texts(args@) =~= seq![binary@] + texts(rest));
                }
                return LaunchPlan { program: interpreter, args };
            },
            None => {},
        }
    }
    LaunchPlan { program: binary, args: tail }
}

} // verus!
