//! Attachments: under which name an image is stored.

use crate::ids::new_id;
use crate::json::{json_model, object, text, with_member, Json};
use crate::text::{ends_with, lowercase, text_eq, to_lowercase};
use serde_json::Value;
use vstd::prelude::*;
use vstd::string::StringExecFns;

verus! {

/// Why an attachment is not stored.
#[derive(Clone, Copy, Debug, PartialEq, Eq)]
pub enum AttachmentError {
    /// The attachment has no bytes.
    Empty,
}

impl AttachmentError {
    /// The error as it is shown.
    pub fn message(&self) -> (shown: &'static str)
        ensures
            shown@ == "empty attachment"@,
    {
        "empty attachment"
    }
}

/// The extension that goes with a media type, for the image types that are
/// known.
pub open spec fn mime_extension(mime: Seq<char>) -> Option<Seq<char>> {
    if mime == "image/png"@ {
        Some("png"@)
    } else if mime == "image/jpeg"@ || mime == "image/jpg"@ {
        Some("jpg"@)
    } else if mime == "image/webp"@ {
        Some("webp"@)
    } else if mime == "image/gif"@ {
        Some("gif"@)
    } else if mime == "image/heic"@ {
        Some("heic"@)
    } else if mime == "image/heif"@ {
        Some("heif"@)
    } else if mime == "image/bmp"@ {
        Some("bmp"@)
    } else if mime == "image/tiff"@ {
        Some("tiff"@)
    } else {
        None
    }
}

/// The extension under which an attachment is stored: the extension of its
/// name, in lower case; else the one that goes with its media type; else
/// `img`.
pub open spec fn stored_extension(
    name_extension: Option<Seq<char>>,
    mime: Option<Seq<char>>,
) -> Seq<char> {
    match name_extension {
        Some(extension) => lowercase(extension),
        None => match mime {
            Some(kind) => match mime_extension(kind) {
                Some(extension) => extension,
                None => "img"@,
            },
            None => "img"@,
        },
    }
}

/// An attachment without bytes is refused.
pub fn check_attachment(size: usize) -> (verdict: Result<(), AttachmentError>)
    ensures
        verdict is Err <==> size == 0,
{
    if size == 0 {
        Err(AttachmentError::Empty)
    } else {
        Ok(())
    }
}

/// The extension that goes with a media type.
pub fn extension_for_mime(mime: &str) -> (extension: Option<&'static str>)
    ensures
        match extension {
            Some(found) => mime_extension(mime@) == Some(found@),
            None => mime_extension(mime@) is None,
        },
{
    if text_eq(mime, "image/png") {
        Some("png")
    } else if text_eq(mime, "image/jpeg") || text_eq(mime, "image/jpg") {
        Some("jpg")
    } else if text_eq(mime, "image/webp") {
        Some("webp")
    } else if text_eq(mime, "image/gif") {
        Some("gif")
    } else if text_eq(mime, "image/heic") {
        Some("heic")
    } else if text_eq(mime, "image/heif") {
        Some("heif")
    } else if text_eq(mime, "image/bmp") {
        Some("bmp")
    } else if text_eq(mime, "image/tiff") {
        Some("tiff")
    } else {
        None
    }
}

/// The extension under which an attachment is stored, from the extension of
/// its name and from its media type, as far as the caller knows them.
pub fn attachment_extension(name_extension: Option<&str>, mime: Option<&str>) -> (extension:
    String)
    ensures
        extension@ == stored_extension(
            match name_extension {
                Some(given) => Some(given@),
                None => None,
            },
            match mime {
                Some(kind) => Some(kind@),
                None => None,
            },
        ),
{
    match name_extension {
        Some(given) => to_lowercase(given),
        None => {
            let by_type = match mime {
                Some(kind) => extension_for_mime(kind),
                None => None,
            };
            match by_type {
                Some(found) => found.to_owned(),
                None => "img".to_owned(),
            }
        },
    }
}

/// The file name `stem.extension`.
pub fn file_name_of(stem: String, extension: &str) -> (name: String)
    ensures
        name@ == stem@ + "."@ + extension@,
{
    let mut name = stem;
    name.append(".");
    name.append(extension);
    name
}

/// A fresh file name for an attachment with the extension `extension`:
/// some new stem, a dot, and the extension.
pub fn attachment_file_name(extension: &str) -> (name: String)
    ensures
        ends_with(name@, "."@ + extension@),
{
    let stem = new_id();
    let name = file_name_of(stem, extension);
    proof {
        let tail = "."@ + extension@;
        assert(name@.skip(name@.len() - tail.len()) =~= tail);
    }
    name
}

/// Where a workspace keeps its attachments, as the components of a path:
/// the workspace's own path, then `.codex`, then `attachments`.
pub fn attachments_dir(workspace_path: &str) -> (components: Vec<String>)
    ensures
        components@.len() == 3,
        components@[0]@ == workspace_path@,
        components@[1]@ == ".codex"@,
        components@[2]@ == "attachments"@,
{
    let mut components: Vec<String> = Vec::new();
    components.push(workspace_path.to_owned());
    components.push(".codex".to_owned());
    components.push("attachments".to_owned());
    components
}

/// What is answered when an attachment was stored: the object with the path
/// of the file under `path`.
pub fn attachment_saved(path: &str) -> (answer: Value)
    ensures
        json_model(answer) == Json::Object(
            Map::<Seq<char>, Json>::empty().insert("path"@, Json::Text(path@)),
        ),
{
    with_member(object(), "path", text(path))
}

} // verus!
