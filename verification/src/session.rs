//! The protocol state of one session: the counter that numbers requests,
//! the table of requests that wait for their response, and the phase of the
//! session's life.
//!
//! A session here owns no process and no stream. The caller writes the
//! messages that the session hands out and feeds it the messages that come
//! in; the session says what is to happen with each. `S` is the caller's
//! single-use slot for one response.

use crate::events::{parse_error_event, parse_error_of};
use crate::json::{json_model, object, text, with_member, Json};
use crate::wire::{
    classify, decode_line, decoded, is_notification, is_request, is_response, message_kind,
    notification_message, request_message, response_message, usage_effect, usage_effect_of,
    Decoded, Inbound, MessageKind, UsageEffect,
};
use serde_json::Value;
use std::collections::HashMap;
use vstd::prelude::*;
use vstd::std_specs::hash::spec_keys_iter;
use vstd::std_specs::iter::IteratorSpec;

verus! {

/// Where a session stands in its life.
#[derive(Clone, Copy, Debug, PartialEq, Eq)]
pub enum Phase {
    /// The process runs, the handshake has not begun.
    Spawned,
    /// `initialize` was sent under this id; its response is awaited.
    Initializing { id: u64 },
    /// The handshake is done: requests may be sent.
    Ready,
    /// The session was torn down.
    Closed,
}

/// Why a session hands out no message.
#[derive(Clone, Copy, Debug, PartialEq, Eq)]
pub enum SessionError {
    /// The handshake is not done, or is asked for a second time.
    WrongPhase,
    /// The session was torn down.
    Closed,
    /// Every id has been given out.
    IdsExhausted,
}

impl SessionError {
    /// The error as it is shown. A request to a session that was torn down
    /// is canceled like the requests that waited at its teardown.
    pub fn message(&self) -> (shown: &'static str)
        ensures
            shown@ == match self {
                SessionError::WrongPhase => "session not ready"@,
                SessionError::Closed => "request canceled"@,
                SessionError::IdsExhausted => "request ids exhausted"@,
            },
    {
        match self {
            SessionError::WrongPhase => "session not ready",
            SessionError::Closed => "request canceled",
            SessionError::IdsExhausted => "request ids exhausted",
        }
    }
}

/// What a request fails with whose slot is dropped before it is fulfilled.
pub fn canceled_message() -> (shown: &'static str)
    ensures
        shown@ == "request canceled"@,
{
    "request canceled"
}

/// A numbered message to write, with the id under which its response will
/// come.
pub struct Outbound {
    pub id: u64,
    pub message: Value,
}

/// What is to happen with an inbound message.
pub enum Delivery<S> {
    /// It answers the request `id`: `slot` is to be fulfilled with it.
    Fulfil { id: u64, slot: S, message: Value },
    /// It is a call or a notification from the server: it goes to the
    /// application as an event.
    Forward { message: Value },
    /// It answers nothing that waits, or cannot be routed: it is dropped.
    Dropped,
}

/// What a line of the server's output leads to.
pub enum Received<S> {
    /// Nothing: the line was blank.
    Nothing,
    /// An event that reports a line that could not be read.
    Diagnostic { event: Value },
    /// A message: what it means for the usage ledger, and where it goes.
    Message { usage: UsageEffect, delivery: Delivery<S> },
}

/// The protocol state of one session.
pub struct Session<S> {
    next_id: u64,
    pending: HashMap<u64, S>,
    phase: Phase,
}

/// The mathematical content of a [`Session`].
pub struct SessionState<S> {
    /// The id that the next request gets.
    pub next_id: u64,
    /// The slots of the requests that wait, by id.
    pub pending: Map<u64, S>,
    pub phase: Phase,
}

impl<S> SessionState<S> {
    /// Ids start at 1; every waiting request has an id that was given out;
    /// a closed session has no waiting request.
    pub open spec fn wf(self) -> bool {
        &&& self.next_id >= 1
        &&& self.pending.dom().finite()
        &&& forall|id: u64| #[trigger] self.pending.contains_key(id) ==> 1 <= id < self.next_id
        &&& self.phase == Phase::Closed ==> self.pending == Map::<u64, S>::empty()
        &&& self.phase matches Phase::Initializing { id } ==> 1 <= id < self.next_id
    }

    /// The state of a session whose process was just spawned.
    pub open spec fn fresh() -> Self {
        SessionState { next_id: 1, pending: Map::empty(), phase: Phase::Spawned }
    }

    /// The state after a request was registered with `slot`.
    pub open spec fn issue(self, slot: S) -> Self {
        SessionState {
            next_id: (self.next_id + 1) as u64,
            pending: self.pending.insert(self.next_id, slot),
            ..self
        }
    }

    /// The state after the request `id` stopped waiting.
    pub open spec fn resolve(self, id: u64) -> Self {
        SessionState { pending: self.pending.remove(id), ..self }
    }

    /// The slot that waits under `id`, if one does.
    pub open spec fn slot(self, id: u64) -> Option<S> {
        if self.pending.contains_key(id) {
            Some(self.pending[id])
        } else {
            None
        }
    }

    /// The state after the session was torn down.
    pub open spec fn close(self) -> Self {
        SessionState { pending: Map::empty(), phase: Phase::Closed, ..self }
    }

    /// The state after `message` came in.
    pub open spec fn route(self, message: Json) -> Self {
        match message_kind(message) {
            MessageKind::Response { id } => self.resolve(id),
            _ => self,
        }
    }
}

/// Whether `delivery` is what is to happen with `message` in the state
/// `state`: a response goes to the slot that waits under its id, and is
/// dropped where none waits; a call or a notification from the server is
/// forwarded; anything else is dropped.
pub open spec fn delivers<S>(state: SessionState<S>, message: Json, delivery: Delivery<S>) -> bool {
    match message_kind(message) {
        MessageKind::Response { id } => match state.slot(id) {
            Some(waiting) => delivery matches Delivery::Fulfil { id: answered, slot, message: answer }
                && answered == id && slot == waiting && json_model(answer) == message,
            None => delivery is Dropped,
        },
        MessageKind::ServerCall { .. } | MessageKind::Notification => delivery matches Delivery::Forward {
            message: forwarded,
        } && json_model(forwarded) == message,
        MessageKind::Unroutable => delivery is Dropped,
    }
}

/// Whether `received` is the diagnostic for the line `raw`.
pub open spec fn is_diagnostic<S>(received: Received<S>, raw: Seq<char>) -> bool {
    received matches Received::Diagnostic { event } && exists|error: Seq<char>|
        json_model(event) == parse_error_of(raw, error)
}

/// Whether `received` is what the message `message` leads to in the state
/// `state`.
pub open spec fn is_routed<S>(received: Received<S>, state: SessionState<S>, message: Json) -> bool {
    received matches Received::Message { usage, delivery } && usage == usage_effect_of(message)
        && delivers(state, message, delivery)
}

/// The parameters of `initialize`: who the client is.
pub open spec fn is_client_identity(params: Json) -> bool {
    &&& params matches Json::Object(members)
    &&& members.dom() =~= set!["clientInfo"@]
    &&& members["clientInfo"@] matches Json::Object(info)
    &&& info.dom() =~= set!["name"@, "title"@, "version"@]
    &&& info["name"@] == Json::Text("codexola"@)
    &&& info["title"@] == Json::Text("Codexola"@)
    &&& info["version"@] == Json::Text("0.1.0"@)
}

proof fn lemma_identity_names_differ()
    ensures
        "name"@ != "title"@,
        "name"@ != "version"@,
        "title"@ != "version"@,
{
    reveal_strlit("name");
    reveal_strlit("title");
    reveal_strlit("version");
    assert("name"@.len() == 4);
    assert("title"@.len() == 5);
    assert("version"@.len() == 7);
}

/// The parameters of `initialize`.
pub fn initialize_params() -> (params: Value)
    ensures
        is_client_identity(json_model(params)),
{
    proof {
        lemma_identity_names_differ();
    }
    let info = with_member(object(), "name", text("codexola"));
    let info = with_member(info, "title", text("Codexola"));
    let info = with_member(info, "version", text("0.1.0"));
    with_member(object(), "clientInfo", info)
}

/// Ids are given out in strictly increasing order: a request gets an id
/// above that of every request that waits, and the next request gets a higher
/// one, whatever was answered in between.
pub proof fn law_ids_strictly_increase<S>(
    state: SessionState<S>,
    first: S,
    answered: u64,
    second: S,
)
    requires
        state.wf(),
        state.phase == Phase::Ready,
        state.next_id + 1 < u64::MAX,
    ensures
        ({
            let first_id = state.next_id;
            let between = state.issue(first).resolve(answered);
            let second_id = between.next_id;
            &&& forall|id: u64| #[trigger] state.pending.contains_key(id) ==> id < first_id
            &&& first_id < second_id
            &&& between.issue(second).wf()
        }),
{
    let one = state.issue(first);
    let between = one.resolve(answered);
    let two = between.issue(second);
    assert forall|id: u64| #[trigger] two.pending.contains_key(id) implies 1 <= id
        < two.next_id by {
        if id != between.next_id && id != state.next_id {
            assert(state.pending.contains_key(id));
        }
    }
    assert(two.pending.dom() =~= state.pending.dom().insert(state.next_id).remove(answered).insert(
        between.next_id,
    ));
}

/// An id is given out once: numbering a request changes nothing for the ids
/// that were given out before, so that an id that has stopped waiting never
/// waits again.
pub proof fn law_ids_are_never_reused<S>(state: SessionState<S>, slot: S, id: u64)
    requires
        state.wf(),
        state.next_id < u64::MAX,
        id < state.next_id,
    ensures
        state.issue(slot).pending.contains_key(id) == state.pending.contains_key(id),
        state.issue(slot).slot(id) == state.slot(id),
        !state.pending.contains_key(state.next_id),
{
}

/// A response finds its request by the id alone: of two requests that wait,
/// each gets its own slot back whichever is answered first, and answering
/// both leaves the table as it was before them.
pub proof fn law_responses_match_by_id<S>(state: SessionState<S>, first: S, second: S)
    requires
        state.wf(),
        state.next_id + 1 < u64::MAX,
    ensures
        ({
            let first_id = state.next_id;
            let second_id = (state.next_id + 1) as u64;
            let both = state.issue(first).issue(second);
            &&& both.slot(first_id) == Some(first)
            &&& both.slot(second_id) == Some(second)
            &&& both.resolve(second_id).slot(first_id) == Some(first)
            &&& both.resolve(first_id).slot(second_id) == Some(second)
            &&& both.resolve(first_id).resolve(second_id).pending == state.pending
            &&& both.resolve(second_id).resolve(first_id).pending == state.pending
        }),
{
    let first_id = state.next_id;
    let second_id = (state.next_id + 1) as u64;
    let both = state.issue(first).issue(second);
    assert(!state.pending.contains_key(first_id));
    assert(!state.pending.contains_key(second_id));
    assert(both.resolve(first_id).resolve(second_id).pending =~= state.pending);
    assert(both.resolve(second_id).resolve(first_id).pending =~= state.pending);
}

/// A response to an id under which nothing waits changes nothing, so that
/// a response that comes twice is dropped the second time.
pub proof fn law_stale_responses_are_dropped<S>(state: SessionState<S>, id: u64)
    ensures
        !state.pending.contains_key(id) ==> state.resolve(id) == state,
        state.resolve(id).resolve(id) == state.resolve(id),
        state.resolve(id).slot(id) is None,
{
    if !state.pending.contains_key(id) {
        assert(state.pending.remove(id) =~= state.pending);
    }
    assert(state.pending.remove(id).remove(id) =~= state.pending.remove(id));
}

/// After a teardown nothing waits: no id has a slot, and a response that
/// comes late is dropped.
pub proof fn law_teardown_leaves_nothing_pending<S>(state: SessionState<S>, id: u64)
    ensures
        state.close().slot(id) is None,
        state.close().pending.len() == 0,
        state.close().resolve(id) == state.close(),
        state.wf() ==> state.close().wf(),
{
    assert(state.close().pending.remove(id) =~= state.close().pending);
}

impl<S> View for Session<S> {
    type V = SessionState<S>;

    closed spec fn view(&self) -> SessionState<S> {
        SessionState { next_id: self.next_id, pending: self.pending@, phase: self.phase }
    }
}

impl<S> Session<S> {
    /// The state of a session whose process was just spawned: the first
    /// request will get the id 1, and nothing waits.
    pub fn new() -> (session: Self)
        ensures
            session@ == SessionState::<S>::fresh(),
            session@.wf(),
    {
        Session { next_id: 1, pending: HashMap::new(), phase: Phase::Spawned }
    }

    /// Where the session stands in its life.
    pub fn phase(&self) -> (phase: Phase)
        ensures
            phase == self@.phase,
    {
        self.phase
    }

    /// The id that the next request will get.
    pub fn next_id(&self) -> (id: u64)
        ensures
            id == self@.next_id,
    {
        self.next_id
    }

    /// How many requests wait for their response.
    pub fn pending_count(&self) -> (count: usize)
        requires
            self@.wf(),
        ensures
            count == self@.pending.len(),
    {
        self.pending.len()
    }

    /// Whether the request `id` waits for its response.
    pub fn is_pending(&self, id: u64) -> (waiting: bool)
        ensures
            waiting == self@.pending.contains_key(id),
    {
        self.pending.contains_key(&id)
    }

    /// Numbers a request and registers its slot.
    fn register(&mut self, slot: S) -> (id: Option<u64>)
        requires
            old(self)@.wf(),
            old(self)@.phase != Phase::Closed,
        ensures
            final(self)@.wf(),
            match id {
                Some(id) => {
                    &&& id == old(self)@.next_id
                    &&& old(self)@.next_id < u64::MAX
                    &&& final(self)@ == old(self)@.issue(slot)
                },
                None => old(self)@.next_id == u64::MAX && final(self)@ == old(self)@,
            },
    {
        if self.next_id == u64::MAX {
            return None;
        }
        let id = self.next_id;
        assert(!self@.pending.contains_key(id));
        self.pending.insert(id, slot);
        self.next_id = id + 1;
        proof {
            let before = old(self)@;
            let after = self@;
            assert(after.pending == before.pending.insert(id, slot));
            assert forall|k: u64| #[trigger] after.pending.contains_key(k) implies 1 <= k
                < after.next_id by {
                if k != id {
                    assert(before.pending.contains_key(k));
                }
            }
        }
        Some(id)
    }

    /// Begins the handshake: registers `slot` for the response and hands out
    /// the `initialize` request to write. Only a session that was just
    /// spawned begins a handshake.
    pub fn begin_initialize(&mut self, slot: S) -> (outcome: Result<Outbound, SessionError>)
        requires
            old(self)@.wf(),
        ensures
            final(self)@.wf(),
            outcome is Ok <==> old(self)@.phase == Phase::Spawned && old(self)@.next_id < u64::MAX,
            match outcome {
                Ok(outbound) => {
                    &&& old(self)@.phase == Phase::Spawned
                    &&& outbound.id == old(self)@.next_id
                    &&& final(self)@ == (SessionState {
                        phase: Phase::Initializing { id: outbound.id },
                        ..old(self)@.issue(slot)
                    })
                    &&& exists|params: Json|
                        is_client_identity(params) && is_request(
                            json_model(outbound.message),
                            outbound.id,
                            "initialize"@,
                            params,
                        )
                },
                Err(error) => {
                    &&& final(self)@ == old(self)@
                    &&& error == if old(self)@.phase == Phase::Closed {
                        SessionError::Closed
                    } else if old(self)@.phase != Phase::Spawned {
                        SessionError::WrongPhase
                    } else {
                        SessionError::IdsExhausted
                    }
                },
            },
    {
        match self.phase {
            Phase::Spawned => {},
            Phase::Closed => {
                return Err(SessionError::Closed);
            },
            _ => {
                return Err(SessionError::WrongPhase);
            },
        }
        match self.register(slot) {
            Some(id) => {
                self.phase = Phase::Initializing { id };
                let params = initialize_params();
                let message = request_message(id, "initialize", params);
                Ok(Outbound { id, message })
            },
            None => Err(SessionError::IdsExhausted),
        }
    }

    /// Ends the handshake after the response to `initialize` has come: the
    /// session is ready, and the `initialized` notification is to be written
    /// before anything else.
    pub fn complete_initialize(&mut self) -> (outcome: Result<Value, SessionError>)
        requires
            old(self)@.wf(),
        ensures
            final(self)@.wf(),
            outcome is Ok <==> (old(self)@.phase matches Phase::Initializing { id }
                && !old(self)@.pending.contains_key(id)),
            match outcome {
                Ok(message) => {
                    &&& old(self)@.phase matches Phase::Initializing { id }
                    &&& !old(self)@.pending.contains_key(id)
                    &&& final(self)@ == (SessionState { phase: Phase::Ready, ..old(self)@ })
                    &&& is_notification(json_model(message), "initialized"@, None)
                },
                Err(error) => {
                    &&& final(self)@ == old(self)@
                    &&& !(old(self)@.phase matches Phase::Initializing { id }
                        && !old(self)@.pending.contains_key(id))
                    &&& error == if old(self)@.phase == Phase::Closed {
                        SessionError::Closed
                    } else {
                        SessionError::WrongPhase
                    }
                },
            },
    {
        match self.phase {
            Phase::Initializing { id } => {
                if self.pending.contains_key(&id) {
                    return Err(SessionError::WrongPhase);
                }
                self.phase = Phase::Ready;
                Ok(notification_message("initialized", None))
            },
            Phase::Closed => Err(SessionError::Closed),
            _ => Err(SessionError::WrongPhase),
        }
    }

    /// Begins a request: gives it the next id, registers `slot` for its
    /// response and hands out the message to write. Only a session that is
    /// ready sends requests; the slot of a request that is refused is
    /// dropped.
    pub fn begin_request(&mut self, method: &str, params: Value, slot: S) -> (outcome: Result<
        Outbound,
        SessionError,
    >)
        requires
            old(self)@.wf(),
        ensures
            final(self)@.wf(),
            outcome is Ok <==> old(self)@.phase == Phase::Ready && old(self)@.next_id < u64::MAX,
            match outcome {
                Ok(outbound) => {
                    &&& old(self)@.phase == Phase::Ready
                    &&& outbound.id == old(self)@.next_id
                    &&& final(self)@ == old(self)@.issue(slot)
                    &&& final(self)@.next_id == outbound.id + 1
                    &&& forall|id: u64| #[trigger]
                        old(self)@.pending.contains_key(id) ==> id < outbound.id
                    &&& is_request(
                        json_model(outbound.message),
                        outbound.id,
                        method@,
                        json_model(params),
                    )
                },
                Err(error) => {
                    &&& final(self)@ == old(self)@
                    &&& error == if old(self)@.phase == Phase::Closed {
                        SessionError::Closed
                    } else if old(self)@.phase != Phase::Ready {
                        SessionError::WrongPhase
                    } else {
                        SessionError::IdsExhausted
                    }
                },
            },
    {
        match self.phase {
            Phase::Ready => {},
            Phase::Closed => {
                return Err(SessionError::Closed);
            },
            _ => {
                return Err(SessionError::WrongPhase);
            },
        }
        match self.register(slot) {
            Some(id) => Ok(Outbound { id, message: request_message(id, method, params) }),
            None => Err(SessionError::IdsExhausted),
        }
    }

    /// Takes the request `id` out of the table, for a caller that has given
    /// up waiting. The slot comes back if the request still waited.
    pub fn forget(&mut self, id: u64) -> (slot: Option<S>)
        requires
            old(self)@.wf(),
        ensures
            final(self)@.wf(),
            final(self)@ == old(self)@.resolve(id),
            slot == old(self)@.slot(id),
    {
        let slot = self.pending.remove(&id);
        proof {
            let before = old(self)@;
            let after = self@;
            assert(after.pending == before.pending.remove(id));
            assert forall|k: u64| #[trigger] after.pending.contains_key(k) implies 1 <= k
                < after.next_id by {
                assert(before.pending.contains_key(k));
            }
            if before.phase == Phase::Closed {
                assert(after.pending =~= Map::<u64, S>::empty());
            }
        }
        slot
    }

    /// The ids of the requests that wait, each once, in no particular order.
    fn pending_ids(&self) -> (ids: Vec<u64>)
        requires
            self@.wf(),
        ensures
            ids@.no_duplicates(),
            ids@.to_set() == self@.pending.dom(),
            ids@.len() == self@.pending.len(),
    {
        broadcast use vstd::std_specs::hash::group_hash_axioms;

        let mut ids: Vec<u64> = Vec::new();
        let ghost all = spec_keys_iter(&self.pending).remaining();
        for key in it: self.pending.keys()
            invariant
                it.seq() == all,
                all == spec_keys_iter(&self.pending).remaining(),
                ids@ == all.unref().take(it.index() as int),
        {
            proof {
                assert(all.unref().take(it.index() + 1) == all.unref().take(it.index() as int).push(
                    *key,
                ));
            }
            ids.push(*key);
        }
        proof {
            assert(all.unref().take(all.len() as int) == all.unref());
            assert forall|i: int, j: int|
                0 <= i < ids@.len() && 0 <= j < ids@.len() && i != j implies ids@[i] != ids@[j] by {
                if ids@[i] == ids@[j] {
                    assert(*all[i] == *all[j]);
                    assert(all[i] == all[j]);
                }
            }
        }
        ids
    }

    /// Tears the session down. Every request that waits is taken out of the
    /// table and handed back, each once, with its id: each of these slots is
    /// to be failed with a cancellation. The session is closed afterwards and
    /// nothing waits in it.
    pub fn teardown(&mut self) -> (cancelled: Vec<(u64, S)>)
        requires
            old(self)@.wf(),
        ensures
            final(self)@.wf(),
            final(self)@ == old(self)@.close(),
            cancelled@.len() == old(self)@.pending.len(),
            forall|i: int|
                0 <= i < cancelled@.len() ==> old(self)@.slot((#[trigger] cancelled@[i]).0)
                    == Some(cancelled@[i].1),
            forall|i: int, j: int|
                0 <= i < j < cancelled@.len() ==> cancelled@[i].0 != cancelled@[j].0,
            forall|id: u64| #[trigger]
                old(self)@.pending.contains_key(id) ==> exists|i: int|
                    0 <= i < cancelled@.len() && cancelled@[i].0 == id,
    {
        let ids = self.pending_ids();
        let mut cancelled: Vec<(u64, S)> = Vec::new();
        let mut i: usize = 0;
        while i < ids.len()
            invariant
                i <= ids.len(),
                ids@.no_duplicates(),
                ids@.to_set() == old(self).pending@.dom(),
                self.next_id == old(self).next_id,
                self.phase == old(self).phase,
                self.pending@.dom() == old(self).pending@.dom().difference(
                    ids@.take(i as int).to_set(),
                ),
                forall|id: u64| #[trigger]
                    self.pending@.contains_key(id) ==> self.pending@[id] == old(self).pending@[id],
                cancelled@.len() == i,
                forall|k: int|
                    0 <= k < i ==> (#[trigger] cancelled@[k]).0 == ids@[k] && cancelled@[k].1 == old(
                        self,
                    ).pending@[ids@[k]],
            decreases ids.len() - i,
        {
            let id = ids[i];
            proof {
                assert(ids@.to_set().contains(id));
                assert(!ids@.take(i as int).to_set().contains(id)) by {
                    if ids@.take(i as int).contains(id) {
                        let k = choose|k: int| 0 <= k < i && ids@.take(i as int)[k] == id;
                        assert(ids@[k] == ids@[i as int]);
                    }
                }
                assert(ids@.take(i + 1) == ids@.take(i as int).push(id));
                assert(ids@.take(i + 1).to_set() =~= ids@.take(i as int).to_set().insert(id)) by {
                    assert forall|x: u64|
                        ids@.take(i as int).push(id).to_set().contains(x) <==> ids@.take(
                            i as int,
                        ).to_set().insert(id).contains(x) by {
                        if ids@.take(i as int).push(id).contains(x) {
                            let k = choose|k: int|
                                0 <= k < i + 1 && ids@.take(i as int).push(id)[k] == x;
                            if k < i {
                                assert(ids@.take(i as int)[k] == x);
                            }
                        }
                        if ids@.take(i as int).contains(x) {
                            let k = choose|k: int| 0 <= k < i && ids@.take(i as int)[k] == x;
                            assert(ids@.take(i as int).push(id)[k] == x);
                        }
                        if x == id {
                            assert(ids@.take(i as int).push(id)[i as int] == x);
                        }
                    }
                }
            }
            match self.pending.remove(&id) {
                Some(slot) => {
                    cancelled.push((id, slot));
                },
                None => {
                    assert(false);
                },
            }
            i += 1;
        }
        self.phase = Phase::Closed;
        proof {
            assert(ids@.take(ids@.len() as int) == ids@);
            assert(self.pending@ =~= Map::<u64, S>::empty());
            vstd::seq_lib::seq_to_set_is_finite(ids@);
            ids@.unique_seq_to_set();
            assert forall|id: u64| #[trigger]
                old(self)@.pending.contains_key(id) implies exists|k: int|
                0 <= k < cancelled@.len() && cancelled@[k].0 == id by {
                assert(ids@.to_set().contains(id));
                let k = choose|k: int| 0 <= k < ids@.len() && ids@[k] == id;
                assert(cancelled@[k].0 == id);
            }
        }
        cancelled
    }

    /// A notification to write: `{method}`, with `params` where there are
    /// any. It gets no id and no response will come. Only a session that is
    /// ready sends notifications.
    pub fn notification(&self, method: &str, params: Option<Value>) -> (outcome: Result<
        Value,
        SessionError,
    >)
        ensures
            outcome is Ok <==> self@.phase == Phase::Ready,
            match outcome {
                Ok(message) => self@.phase == Phase::Ready && is_notification(
                    json_model(message),
                    method@,
                    match params {
                        Some(sent) => Some(json_model(sent)),
                        None => None,
                    },
                ),
                Err(error) => self@.phase != Phase::Ready && error == if self@.phase
                    == Phase::Closed {
                    SessionError::Closed
                } else {
                    SessionError::WrongPhase
                },
            },
    {
        match self.phase {
            Phase::Ready => Ok(notification_message(method, params)),
            Phase::Closed => Err(SessionError::Closed),
            _ => Err(SessionError::WrongPhase),
        }
    }

    /// The reply to write to a call from the server: `{id, result}`. Only a
    /// session that is ready replies.
    pub fn response(&self, id: u64, result: Value) -> (outcome: Result<Value, SessionError>)
        ensures
            outcome is Ok <==> self@.phase == Phase::Ready,
            match outcome {
                Ok(message) => self@.phase == Phase::Ready && is_response(
                    json_model(message),
                    id,
                    json_model(result),
                ),
                Err(error) => self@.phase != Phase::Ready && error == if self@.phase
                    == Phase::Closed {
                    SessionError::Closed
                } else {
                    SessionError::WrongPhase
                },
            },
    {
        match self.phase {
            Phase::Ready => Ok(response_message(id, result)),
            Phase::Closed => Err(SessionError::Closed),
            _ => Err(SessionError::WrongPhase),
        }
    }

    /// Takes in one line of the server's output.
    ///
    /// A blank line is nothing. A line that holds no JSON gives a
    /// diagnostic event and nothing else; the lines after it are read as if
    /// it had not come. A line that holds a message is looked at for what it
    /// means for the usage ledger, and is then routed.
    pub fn receive_line(&mut self, line: &str) -> (received: Received<S>)
        requires
            old(self)@.wf(),
        ensures
            final(self)@.wf(),
            decoded(line@) is Blank ==> received is Nothing && final(self)@ == old(self)@,
            decoded(line@) matches Decoded::Malformed { raw } ==> final(self)@ == old(self)@
                && is_diagnostic(received, raw),
            decoded(line@) matches Decoded::Message(message) ==> final(self)@ == old(self)@.route(
                message,
            ) && is_routed(received, old(self)@, message),
    {
        match decode_line(line) {
            Inbound::Blank => Received::Nothing,
            Inbound::Malformed { raw, error } => {
                let event = parse_error_event(raw.as_str(), error.as_str());
                assert(json_model(event) == parse_error_of(raw@, error@));
                Received::Diagnostic { event }
            },
            Inbound::Message(message) => {
                let usage = usage_effect(&message);
                let ghost content = json_model(message);
                assert(decoded(line@) == Decoded::Message(content));
                let delivery = self.route(message);
                Received::Message { usage, delivery }
            },
        }
    }

    /// Routes an inbound message.
    ///
    /// A response is matched to the waiting request by its id alone: the
    /// slot of that request comes out of the table, to be fulfilled with the
    /// message. A response to nothing that waits is dropped. A call or a
    /// notification from the server is forwarded. Nothing else in the session
    /// changes.
    pub fn route(&mut self, message: Value) -> (delivery: Delivery<S>)
        requires
            old(self)@.wf(),
        ensures
            final(self)@.wf(),
            final(self)@ == old(self)@.route(json_model(message)),
            match message_kind(json_model(message)) {
                MessageKind::Response { id } => match old(self)@.slot(id) {
                    Some(slot) => delivery == (Delivery::<S>::Fulfil { id, slot, message }),
                    None => delivery is Dropped,
                },
                MessageKind::ServerCall { .. } | MessageKind::Notification => delivery
                    == (Delivery::<S>::Forward { message }),
                MessageKind::Unroutable => delivery is Dropped,
            },
    {
        match classify(&message) {
            MessageKind::Response { id } => match self.forget(id) {
                Some(slot) => Delivery::Fulfil { id, slot, message },
                None => Delivery::Dropped,
            },
            MessageKind::ServerCall { .. } => Delivery::Forward { message },
            MessageKind::Notification => Delivery::Forward { message },
            MessageKind::Unroutable => Delivery::Dropped,
        }
    }
}

} // verus!
