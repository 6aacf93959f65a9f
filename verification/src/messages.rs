//! The requests that the application sends to an agent server: their
//! methods and their parameters.

use crate::json::{
    boolean, json_model, list, null, object, text, unsigned, with_member, Json,
};
use crate::text::{blank, is_blank, text_eq, texts};
use serde_json::Value;
use vstd::prelude::*;

verus! {

/// Why a request is not sent.
#[derive(Clone, Copy, Debug, PartialEq, Eq)]
pub enum MessageError {
    /// A turn was asked for with neither text nor an image.
    EmptyInput,
}

impl MessageError {
    /// The error as it is shown.
    pub fn message(&self) -> (shown: &'static str)
        ensures
            shown@ == "empty input"@,
    {
        "empty input"
    }
}

/// A text where there is one, `null` where there is none.
pub open spec fn optional_text(value: Option<Seq<char>>) -> Json {
    match value {
        Some(content) => Json::Text(content),
        None => Json::Null,
    }
}

/// The text of an optional string slice.
pub open spec fn slice_view(value: Option<&str>) -> Option<Seq<char>> {
    match value {
        Some(content) => Some(content@),
        None => None,
    }
}

/// The object with one member.
pub open spec fn object_of(key: Seq<char>, value: Json) -> Json {
    Json::Object(Map::<Seq<char>, Json>::empty().insert(key, value))
}

/// The parameters of `thread/start`: the working directory, and approvals
/// on request.
pub open spec fn thread_start_of(cwd: Seq<char>) -> Json {
    Json::Object(
        Map::<Seq<char>, Json>::empty().insert("cwd"@, Json::Text(cwd)).insert(
            "approvalPolicy"@,
            Json::Text("on-request"@),
        ),
    )
}

/// The access mode that counts: the one asked for, and `current` where none
/// is.
pub open spec fn access_mode_of(requested: Option<Seq<char>>) -> Seq<char> {
    match requested {
        Some(mode) => mode,
        None => "current"@,
    }
}

/// The sandbox that a turn runs in: none for `full-access`, read-only for
/// `read-only`, and for every other mode the workspace, writable, with
/// network access.
pub open spec fn sandbox_policy_of(mode: Seq<char>, cwd: Seq<char>) -> Json {
    if mode == "full-access"@ {
        object_of("type"@, Json::Text("dangerFullAccess"@))
    } else if mode == "read-only"@ {
        object_of("type"@, Json::Text("readOnly"@))
    } else {
        Json::Object(
            Map::<Seq<char>, Json>::empty().insert("type"@, Json::Text("workspaceWrite"@)).insert(
                "writableRoots"@,
                Json::List(seq![Json::Text(cwd)]),
            ).insert("networkAccess"@, Json::Bool(true)),
        )
    }
}

/// When a turn asks for approval: never with full access, else on request.
pub open spec fn approval_policy_of(mode: Seq<char>) -> Seq<char> {
    if mode == "full-access"@ {
        "never"@
    } else {
        "on-request"@
    }
}

/// The input item for a text.
pub open spec fn text_item(content: Seq<char>) -> Json {
    Json::Object(
        Map::<Seq<char>, Json>::empty().insert("type"@, Json::Text("text"@)).insert(
            "text"@,
            Json::Text(content),
        ),
    )
}

/// The input item for an image on disk.
pub open spec fn image_item(path: Seq<char>) -> Json {
    Json::Object(
        Map::<Seq<char>, Json>::empty().insert("type"@, Json::Text("localImage"@)).insert(
            "path"@,
            Json::Text(path),
        ),
    )
}

/// The input items for the images at `paths`: one for each path that is not
/// blank, in their order.
pub open spec fn image_items(paths: Seq<Seq<char>>) -> Seq<Json>
    decreases paths.len(),
{
    if paths.len() == 0 {
        Seq::empty()
    } else if is_blank(paths.last()) {
        image_items(paths.drop_last())
    } else {
        image_items(paths.drop_last()).push(image_item(paths.last()))
    }
}

/// The input of a turn: the text, unless it is blank, then the images.
pub open spec fn input_items(content: Seq<char>, paths: Seq<Seq<char>>) -> Seq<Json> {
    (if is_blank(content) {
        Seq::<Json>::empty()
    } else {
        seq![text_item(content)]
    }) + image_items(paths)
}

/// The parameters of `turn/start`.
pub open spec fn turn_start_of(
    thread_id: Seq<char>,
    content: Seq<char>,
    paths: Seq<Seq<char>>,
    cwd: Seq<char>,
    access_mode: Option<Seq<char>>,
    model: Option<Seq<char>>,
    effort: Option<Seq<char>>,
) -> Json {
    let mode = access_mode_of(access_mode);
    Json::Object(
        Map::<Seq<char>, Json>::empty().insert("threadId"@, Json::Text(thread_id)).insert(
            "input"@,
            Json::List(input_items(content, paths)),
        ).insert("cwd"@, Json::Text(cwd)).insert(
            "approvalPolicy"@,
            Json::Text(approval_policy_of(mode)),
        ).insert("sandboxPolicy"@, sandbox_policy_of(mode, cwd)).insert(
            "model"@,
            optional_text(model),
        ).insert("effort"@, optional_text(effort)),
    )
}

fn optional(value: Option<&str>) -> (document: Value)
    ensures
        json_model(document) == optional_text(slice_view(value)),
{
    match value {
        Some(content) => text(content),
        None => null(),
    }
}

/// The parameters of `thread/start` for a workspace at `cwd`.
pub fn thread_start_params(cwd: &str) -> (params: Value)
    ensures
        json_model(params) == thread_start_of(cwd@),
{
    let params = with_member(object(), "cwd", text(cwd));
    with_member(params, "approvalPolicy", text("on-request"))
}

/// The parameters of `thread/resume` and of `thread/archive`: the thread.
pub fn thread_params(thread_id: &str) -> (params: Value)
    ensures
        json_model(params) == object_of("threadId"@, Json::Text(thread_id@)),
{
    with_member(object(), "threadId", text(thread_id))
}

/// The parameters of `thread/list`: where to go on, and how many to give;
/// each is `null` where the caller leaves it open.
pub fn thread_list_params(cursor: Option<&str>, limit: Option<u32>) -> (params: Value)
    ensures
        json_model(params) matches Json::Object(members) && members.dom() =~= set![
            "cursor"@,
            "limit"@,
        ] && members["cursor"@] == optional_text(slice_view(cursor)) && match limit {
            Some(count) => members["limit"@].is_integer(count as int),
            None => members["limit"@] == Json::Null,
        },
{
    proof {
        reveal_strlit("cursor");
        reveal_strlit("limit");
        assert("cursor"@.len() == 6);
        assert("limit"@.len() == 5);
    }
    let params = with_member(object(), "cursor", optional(cursor));
    let count = match limit {
        Some(count) => unsigned(count as u64),
        None => null(),
    };
    with_member(params, "limit", count)
}

/// The parameters of `model/list`: none.
pub fn model_list_params() -> (params: Value)
    ensures
        json_model(params) == Json::Object(Map::empty()),
{
    object()
}

/// The parameters of `skills/list` for a workspace at `cwd`.
pub fn skills_list_params(cwd: &str) -> (params: Value)
    ensures
        json_model(params) == object_of("cwd"@, Json::Text(cwd@)),
{
    with_member(object(), "cwd", text(cwd))
}

/// The parameters of `review/start`: the thread, what to review, and how
/// to deliver the review where the caller says so.
pub fn review_start_params(thread_id: &str, target: Value, delivery: Option<&str>) -> (params:
    Value)
    ensures
        json_model(params) == Json::Object(
            match delivery {
                Some(way) => Map::<Seq<char>, Json>::empty().insert(
                    "threadId"@,
                    Json::Text(thread_id@),
                ).insert("target"@, json_model(target)).insert("delivery"@, Json::Text(way@)),
                None => Map::<Seq<char>, Json>::empty().insert(
                    "threadId"@,
                    Json::Text(thread_id@),
                ).insert("target"@, json_model(target)),
            },
        ),
{
    let params = with_member(object(), "threadId", text(thread_id));
    let params = with_member(params, "target", target);
    match delivery {
        Some(way) => with_member(params, "delivery", text(way)),
        None => params,
    }
}

/// The sandbox that a turn runs in.
pub fn sandbox_policy(mode: &str, cwd: &str) -> (policy: Value)
    ensures
        json_model(policy) == sandbox_policy_of(mode@, cwd@),
{
    if text_eq(mode, "full-access") {
        with_member(object(), "type", text("dangerFullAccess"))
    } else if text_eq(mode, "read-only") {
        with_member(object(), "type", text("readOnly"))
    } else {
        let mut roots: Vec<Value> = Vec::new();
        roots.push(text(cwd));
        proof {
            assert(roots@.map_values(|item: Value| json_model(item)) =~= seq![Json::Text(cwd@)]);
        }
        let policy = with_member(object(), "type", text("workspaceWrite"));
        let policy = with_member(policy, "writableRoots", list(roots));
        with_member(policy, "networkAccess", boolean(true))
    }
}

/// When a turn asks for approval.
pub fn approval_policy(mode: &str) -> (policy: &'static str)
    ensures
        policy@ == approval_policy_of(mode@),
{
    if text_eq(mode, "full-access") {
        "never"
    } else {
        "on-request"
    }
}

/// The parameters of `turn/start`: the thread, the input, the working
/// directory, and the policies that follow from the access mode. A turn
/// whose text is blank and that has no image with a path is refused.
pub fn turn_start_params(
    thread_id: &str,
    content: &str,
    attachments: &Vec<String>,
    cwd: &str,
    access_mode: Option<&str>,
    model: Option<&str>,
    effort: Option<&str>,
) -> (params: Result<Value, MessageError>)
    ensures
        match params {
            Ok(sent) => input_items(content@, texts(attachments@)).len() > 0 && json_model(sent)
                == turn_start_of(
                thread_id@,
                content@,
                texts(attachments@),
                cwd@,
                slice_view(access_mode),
                slice_view(model),
                slice_view(effort),
            ),
            Err(error) => input_items(content@, texts(attachments@)).len() == 0 && error
                == MessageError::EmptyInput,
        },
{
    let mode: &str = match access_mode {
        Some(mode) => mode,
        None => "current",
    };
    let ghost paths = texts(attachments@);
    let mut input: Vec<Value> = Vec::new();
    if !blank(content) {
        let item = with_member(object(), "type", text("text"));
        input.push(with_member(item, "text", text(content)));
    }
    let ghost head = input@.map_values(|item: Value| json_model(item));
    proof {
        assert(head =~= if is_blank(content@) {
            Seq::<Json>::empty()
        } else {
            seq![text_item(content@)]
        });
        assert(paths.take(0) =~= Seq::<Seq<char>>::empty());
    }
    let mut i: usize = 0;
    while i < attachments.len()
        invariant
            i <= attachments.len(),
            paths == texts(attachments@),
            input@.map_values(|item: Value| json_model(item)) == head + image_items(
                paths.take(i as int),
            ),
        decreases attachments.len() - i,
    {
        let ghost before = input@.map_values(|item: Value| json_model(item));
        proof {
            assert(paths.take(i + 1).drop_last() == paths.take(i as int));
            assert(paths.take(i + 1).last() == attachments@[i as int]@);
        }
        if !blank(attachments[i].as_str()) {
            let item = with_member(object(), "type", text("localImage"));
            input.push(with_member(item, "path", text(attachments[i].as_str())));
            proof {
                assert(input@.map_values(|item: Value| json_model(item)) =~= before.push(
                    image_item(attachments@[i as int]@),
                ));
                assert(before.push(image_item(attachments@[i as int]@)) =~= head + image_items(
                    paths.take(i + 1),
                ));
            }
        }
        i += 1;
    }
    proof {
        assert(paths.take(i as int) == paths);
    }
    if input.len() == 0 {
        return Err(MessageError::EmptyInput);
    }
    let params = with_member(object(), "threadId", text(thread_id));
    let params = with_member(params, "input", list(input));
    let params = with_member(params, "cwd", text(cwd));
    let params = with_member(params, "approvalPolicy", text(approval_policy(mode)));
    let params = with_member(params, "sandboxPolicy", sandbox_policy(mode, cwd));
    let params = with_member(params, "model", optional(model));
    Ok(with_member(params, "effort", optional(effort)))
}

} // verus!
