//! Paths as text: separators, the directories that a search leaves out, and
//! where a workspace keeps its session metadata.

use crate::text::{replace_char, replaced, text_eq};
use vstd::prelude::*;

verus! {

/// A path with `/` for every `\`.
pub open spec fn with_forward_slashes(path: Seq<char>) -> Seq<char> {
    replaced(path, '\\', '/')
}

/// A path as the version control reports it, with `/` for every `\`.
pub fn normalize_git_path(path: &str) -> (normal: String)
    ensures
        normal@ == with_forward_slashes(path@),
        normal@.len() == path@.len(),
        !normal@.contains('\\'),
{
    let normal = replace_char(path, '\\', '/');
    proof {
        if normal@.contains('\\') {
            let i = choose|i: int| 0 <= i < normal@.len() && normal@[i] == '\\';
            assert(normal@[i] == if path@[i] == '\\' {
                '/'
            } else {
                path@[i]
            });
        }
    }
    normal
}

/// The text of a path of the file system, with `/` for every `\`.
pub fn normalize_path(path: &str) -> (normal: String)
    ensures
        normal@ == with_forward_slashes(path@),
        normal@.len() == path@.len(),
        !normal@.contains('\\'),
{
    normalize_git_path(path)
}

/// Whether a directory of this name is left out of a search.
pub open spec fn is_excluded_name(name: Seq<char>) -> bool {
    name == ".git"@ || name == ".codex"@ || name == "node_modules"@
}

/// Whether a search leaves a directory out, by the last component of its
/// path: `.git`, `.codex` and `node_modules` are left out. A path without a
/// last component that is text is searched.
pub fn is_excluded_dir(file_name: Option<&str>) -> (excluded: bool)
    ensures
        excluded == match file_name {
            Some(name) => is_excluded_name(name@),
            None => false,
        },
{
    match file_name {
        Some(name) => text_eq(name, ".git") || text_eq(name, ".codex") || text_eq(
            name,
            "node_modules",
        ),
        None => false,
    }
}

/// Where a workspace keeps the metadata of its sessions, as the components
/// of a path: the workspace's own path, then `.codexmonitor`, then
/// `sessions.json`.
pub fn workspace_sessions_path(workspace_path: &str) -> (components: Vec<String>)
    ensures
        components@.len() == 3,
        components@[0]@ == workspace_path@,
        components@[1]@ == ".codexmonitor"@,
        components@[2]@ == "sessions.json"@,
{
    let mut components: Vec<String> = Vec::new();
    components.push(workspace_path.to_owned());
    components.push(".codexmonitor".to_owned());
    components.push("sessions.json".to_owned());
    components
}

} // verus!
