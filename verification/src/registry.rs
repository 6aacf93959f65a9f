//! The registry of workspaces and of the sessions that run for them: each
//! workspace has one session or none.
//!
//! `H` is the caller's handle on a running session. The registry only keeps
//! handles; starting and stopping what they stand for is the caller's part.

use crate::ids::new_id;
use crate::sorting::{
    is_sorted_order, keys_of, lemma_key_order, lemma_sorted_order_is_permutation, sort_by_keys,
    Key, SortKey,
};
use crate::text::{chars_of, precedes};
use crate::textmap::TextMap;
use vstd::prelude::*;

verus! {

/// A workspace that the user has added.
#[derive(Debug)]
pub struct WorkspaceEntry {
    pub id: String,
    pub name: String,
    pub path: String,
    pub codex_bin: Option<String>,
}

/// A workspace as it is listed: the entry, and whether a session runs for it.
#[derive(Debug)]
pub struct WorkspaceInfo {
    pub id: String,
    pub name: String,
    pub path: String,
    pub connected: bool,
    pub codex_bin: Option<String>,
}

/// Why the registry cannot serve a request.
#[derive(Clone, Copy, Debug, PartialEq, Eq)]
pub enum RegistryError {
    /// No workspace has this id.
    WorkspaceNotFound,
    /// No session runs for this workspace.
    WorkspaceNotConnected,
}

impl RegistryError {
    /// The error as it is shown.
    pub fn message(&self) -> (shown: &'static str)
        ensures
            shown@ == match self {
                RegistryError::WorkspaceNotFound => "workspace not found"@,
                RegistryError::WorkspaceNotConnected => "workspace not connected"@,
            },
    {
        match self {
            RegistryError::WorkspaceNotFound => "workspace not found",
            RegistryError::WorkspaceNotConnected => "workspace not connected",
        }
    }
}

/// What leaves the registry with a workspace.
pub struct Removed<H> {
    pub entry: Option<WorkspaceEntry>,
    /// The session that ran for the workspace. It is to be torn down.
    pub session: Option<H>,
}

fn copy_optional(value: &Option<String>) -> (copy: Option<String>)
    ensures
        copy == *value,
{
    match value {
        Some(text) => Some(text.clone()),
        None => None,
    }
}

impl Clone for WorkspaceEntry {
    fn clone(&self) -> (copy: Self)
        ensures
            copy == *self,
    {
        WorkspaceEntry {
            id: self.id.clone(),
            name: self.name.clone(),
            path: self.path.clone(),
            codex_bin: copy_optional(&self.codex_bin),
        }
    }
}

impl Clone for WorkspaceInfo {
    fn clone(&self) -> (copy: Self)
        ensures
            copy == *self,
    {
        WorkspaceInfo {
            id: self.id.clone(),
            name: self.name.clone(),
            path: self.path.clone(),
            connected: self.connected,
            codex_bin: copy_optional(&self.codex_bin),
        }
    }
}

/// The listing of `entry`.
pub open spec fn info_of(entry: WorkspaceEntry, connected: bool) -> WorkspaceInfo {
    WorkspaceInfo {
        id: entry.id,
        name: entry.name,
        path: entry.path,
        connected,
        codex_bin: entry.codex_bin,
    }
}

/// The name of a workspace: the last component of its path, and `Workspace`
/// where the path has none that is text.
pub fn workspace_name(file_name: Option<&str>) -> (name: String)
    ensures
        name@ == match file_name {
            Some(last) => last@,
            None => "Workspace"@,
        },
{
    match file_name {
        Some(last) => last.to_owned(),
        None => "Workspace".to_owned(),
    }
}

/// The entry for a workspace at `path` under the id `id`: it is named after
/// the last component of the path.
pub fn workspace_entry(id: String, path: &str, file_name: Option<&str>, codex_bin: Option<String>) -> (entry:
    WorkspaceEntry)
    ensures
        entry.id == id,
        entry.name@ == match file_name {
            Some(last) => last@,
            None => "Workspace"@,
        },
        entry.path@ == path@,
        entry.codex_bin == codex_bin,
{
    WorkspaceEntry { id, name: workspace_name(file_name), path: path.to_owned(), codex_bin }
}

/// The entry for a workspace that is added at `path`, under a fresh id.
pub fn new_workspace(path: &str, file_name: Option<&str>, codex_bin: Option<String>) -> (entry:
    WorkspaceEntry)
    ensures
        entry.name@ == match file_name {
            Some(last) => last@,
            None => "Workspace"@,
        },
        entry.path@ == path@,
        entry.codex_bin == codex_bin,
{
    workspace_entry(new_id(), path, file_name, codex_bin)
}

/// The registry.
pub struct Registry<H> {
    workspaces: TextMap<WorkspaceEntry>,
    sessions: TextMap<H>,
}

impl<H> Registry<H> {
    /// The workspaces, by id.
    pub closed spec fn workspaces(&self) -> Map<Seq<char>, WorkspaceEntry> {
        self.workspaces@
    }

    /// The sessions that run, by the id of their workspace.
    pub closed spec fn sessions(&self) -> Map<Seq<char>, H> {
        self.sessions@
    }

    /// Every workspace stands under its own id, and sessions run for
    /// workspaces of the registry only.
    pub closed spec fn wf(&self) -> bool {
        &&& self.workspaces.wf()
        &&& self.sessions.wf()
        &&& forall|id: Seq<char>| #[trigger]
            self.workspaces@.contains_key(id) ==> self.workspaces@[id].id@ == id
        &&& forall|id: Seq<char>| #[trigger]
            self.sessions@.contains_key(id) ==> self.workspaces@.contains_key(id)
    }

    /// What holds of every well-formed registry.
    pub proof fn lemma_wf(&self)
        requires
            self.wf(),
        ensures
            self.workspaces().dom().finite(),
            self.sessions().dom().finite(),
            forall|id: Seq<char>| #[trigger]
                self.workspaces().contains_key(id) ==> self.workspaces()[id].id@ == id,
            forall|id: Seq<char>| #[trigger]
                self.sessions().contains_key(id) ==> self.workspaces().contains_key(id),
    {
        self.workspaces.lemma_entries();
        self.sessions.lemma_entries();
    }

    /// A registry without workspaces.
    pub fn new() -> (registry: Self)
        ensures
            registry.wf(),
            registry.workspaces() == Map::<Seq<char>, WorkspaceEntry>::empty(),
            registry.sessions() == Map::<Seq<char>, H>::empty(),
    {
        Registry { workspaces: TextMap::new(), sessions: TextMap::new() }
    }

    /// Adds a workspace without a session, as when the list of workspaces is
    /// read back at start. An entry with the same id is replaced; a session
    /// that runs for it stays.
    pub fn restore(&mut self, entry: WorkspaceEntry)
        requires
            old(self).wf(),
        ensures
            final(self).wf(),
            final(self).workspaces() == old(self).workspaces().insert(entry.id@, entry),
            final(self).sessions() == old(self).sessions(),
    {
        let id = entry.id.clone();
        self.workspaces.insert(id, entry);
    }

    /// Adds a workspace together with the session that was started for it.
    /// An entry with the same id is replaced; a session that ran for it is
    /// handed back, to be torn down.
    pub fn add(&mut self, entry: WorkspaceEntry, session: H) -> (displaced: Option<H>)
        requires
            old(self).wf(),
        ensures
            final(self).wf(),
            final(self).workspaces() == old(self).workspaces().insert(entry.id@, entry),
            final(self).sessions() == old(self).sessions().insert(entry.id@, session),
            displaced == if old(self).sessions().contains_key(entry.id@) {
                Some(old(self).sessions()[entry.id@])
            } else {
                None
            },
    {
        let id = entry.id.clone();
        let key = entry.id.clone();
        self.workspaces.insert(id, entry);
        self.sessions.insert(key, session)
    }

    /// Makes `session` the session of the workspace `id`. A session that ran
    /// for it until now is handed back, to be torn down. Where the registry
    /// has no such workspace, nothing changes and `session` itself comes
    /// back as the error.
    pub fn connect(&mut self, id: &str, session: H) -> (outcome: Result<Option<H>, H>)
        requires
            old(self).wf(),
        ensures
            final(self).wf(),
            final(self).workspaces() == old(self).workspaces(),
            match outcome {
                Ok(displaced) => {
                    &&& old(self).workspaces().contains_key(id@)
                    &&& final(self).sessions() == old(self).sessions().insert(id@, session)
                    &&& displaced == if old(self).sessions().contains_key(id@) {
                        Some(old(self).sessions()[id@])
                    } else {
                        None
                    }
                },
                Err(refused) => {
                    &&& !old(self).workspaces().contains_key(id@)
                    &&& final(self).sessions() == old(self).sessions()
                    &&& refused == session
                },
            },
    {
        if !self.workspaces.contains_key(id) {
            return Err(session);
        }
        Ok(self.sessions.insert(id.to_owned(), session))
    }

    /// Takes the session of the workspace `id` out of the registry, as when
    /// its process has exited. The workspace stays.
    pub fn disconnect(&mut self, id: &str) -> (session: Option<H>)
        requires
            old(self).wf(),
        ensures
            final(self).wf(),
            final(self).workspaces() == old(self).workspaces(),
            final(self).sessions() == old(self).sessions().remove(id@),
            session == if old(self).sessions().contains_key(id@) {
                Some(old(self).sessions()[id@])
            } else {
                None
            },
    {
        self.sessions.remove(id)
    }

    /// Takes the workspace `id` out of the registry, with its session if one
    /// runs.
    pub fn remove(&mut self, id: &str) -> (removed: Removed<H>)
        requires
            old(self).wf(),
        ensures
            final(self).wf(),
            final(self).workspaces() == old(self).workspaces().remove(id@),
            final(self).sessions() == old(self).sessions().remove(id@),
            removed.entry == if old(self).workspaces().contains_key(id@) {
                Some(old(self).workspaces()[id@])
            } else {
                None
            },
            removed.session == if old(self).sessions().contains_key(id@) {
                Some(old(self).sessions()[id@])
            } else {
                None
            },
    {
        let entry = self.workspaces.remove(id);
        let session = self.sessions.remove(id);
        Removed { entry, session }
    }

    /// The workspace `id`.
    pub fn entry(&self, id: &str) -> (found: Result<&WorkspaceEntry, RegistryError>)
        requires
            self.wf(),
        ensures
            match found {
                Ok(entry) => self.workspaces().contains_key(id@) && self.workspaces()[id@]
                    == *entry,
                Err(error) => !self.workspaces().contains_key(id@) && error
                    == RegistryError::WorkspaceNotFound,
            },
    {
        match self.workspaces.get(id) {
            Some(entry) => Ok(entry),
            None => Err(RegistryError::WorkspaceNotFound),
        }
    }

    /// The session of the workspace `id`. A request to a workspace without a
    /// session fails at once.
    pub fn session(&self, id: &str) -> (found: Result<&H, RegistryError>)
        requires
            self.wf(),
        ensures
            match found {
                Ok(session) => self.sessions().contains_key(id@) && self.sessions()[id@]
                    == *session,
                Err(error) => !self.sessions().contains_key(id@) && error
                    == RegistryError::WorkspaceNotConnected,
            },
    {
        match self.sessions.get(id) {
            Some(session) => Ok(session),
            None => Err(RegistryError::WorkspaceNotConnected),
        }
    }

    /// Whether a session runs for the workspace `id`.
    pub fn is_connected(&self, id: &str) -> (connected: bool)
        ensures
            connected == self.sessions().contains_key(id@),
    {
        self.sessions.contains_key(id)
    }

    /// Some session that runs, if any does.
    pub fn any_session(&self) -> (found: Option<&H>)
        requires
            self.wf(),
        ensures
            match found {
                Some(session) => exists|id: Seq<char>| #[trigger]
                    self.sessions().contains_key(id) && self.sessions()[id] == *session,
                None => self.sessions() == Map::<Seq<char>, H>::empty(),
            },
    {
        proof {
            self.sessions.lemma_entries();
        }
        if self.sessions.len() > 0 {
            let session = self.sessions.value(0);
            proof {
                assert(self.sessions().contains_key(self.sessions.key_at(0)));
            }
            Some(session)
        } else {
            proof {
                assert(self.sessions().dom() =~= Set::<Seq<char>>::empty());
                assert(self.sessions() =~= Map::<Seq<char>, H>::empty());
            }
            None
        }
    }

    /// The binary to probe with: the binary of some workspace that has one
    /// configured, and `codex` where none has.
    pub fn probe_binary(&self) -> (binary: String)
        requires
            self.wf(),
        ensures
            (exists|id: Seq<char>| #[trigger]
                self.workspaces().contains_key(id) && self.workspaces()[id].codex_bin
                    == Some(binary)) || (binary@ == "codex"@ && forall|id: Seq<char>| #[trigger]
                self.workspaces().contains_key(id) ==> self.workspaces()[id].codex_bin is None),
    {
        proof {
            self.workspaces.lemma_entries();
        }
        let mut i: usize = 0;
        while i < self.workspaces.len()
            invariant
                self.wf(),
                i <= self.workspaces.count(),
                forall|k: int| 0 <= k < i ==> (#[trigger] self.workspaces.value_at(k)).codex_bin is None,
            decreases self.workspaces.count() - i,
        {
            match &self.workspaces.value(i).codex_bin {
                Some(configured) => {
                    proof {
                        self.workspaces.lemma_entries();
                        assert(self.workspaces().contains_key(self.workspaces.key_at(i as int)));
                    }
                    return configured.clone();
                },
                None => {},
            }
            i += 1;
        }
        proof {
            self.workspaces.lemma_entries();
            assert forall|id: Seq<char>| #[trigger]
                self.workspaces().contains_key(id) implies self.workspaces()[id].codex_bin is None by {
                let k = choose|k: int|
                    0 <= k < self.workspaces.count() && self.workspaces.key_at(k) == id;
                assert(self.workspaces.value_at(k).codex_bin is None);
            }
        }
        "codex".to_owned()
    }

    /// The workspaces, each once, in no particular order: what is written
    /// when the list of workspaces is persisted.
    pub fn entries(&self) -> (all: Vec<WorkspaceEntry>)
        requires
            self.wf(),
        ensures
            all@.len() == self.workspaces().len(),
            forall|i: int|
                0 <= i < all@.len() ==> self.workspaces().contains_key((#[trigger] all@[i]).id@)
                    && self.workspaces()[all@[i].id@] == all@[i],
            forall|i: int, j: int| 0 <= i < j < all@.len() ==> all@[i].id@ != all@[j].id@,
    {
        proof {
            self.workspaces.lemma_entries();
        }
        let mut all: Vec<WorkspaceEntry> = Vec::new();
        let mut i: usize = 0;
        while i < self.workspaces.len()
            invariant
                self.wf(),
                i <= self.workspaces.count(),
                all@.len() == i,
                forall|k: int|
                    0 <= k < i ==> (#[trigger] all@[k]) == self.workspaces.value_at(k)
                        && all@[k].id@ == self.workspaces.key_at(k),
            decreases self.workspaces.count() - i,
        {
            proof {
                self.workspaces.lemma_entries();
                assert(self.workspaces().contains_key(self.workspaces.key_at(i as int)));
            }
            all.push(self.workspaces.value(i).clone());
            i += 1;
        }
        proof {
            self.workspaces.lemma_entries();
            assert forall|k: int| 0 <= k < all@.len() implies self.workspaces().contains_key(
                (#[trigger] all@[k]).id@,
            ) && self.workspaces()[all@[k].id@] == all@[k] by {
                assert(self.workspaces().contains_key(self.workspaces.key_at(k)));
            }
        }
        all
    }

    /// The workspaces as they are listed: each once, with the mark of
    /// whether a session runs for it, sorted by name.
    pub fn list(&self) -> (listing: Vec<WorkspaceInfo>)
        requires
            self.wf(),
        ensures
            listing@.len() == self.workspaces().len(),
            forall|i: int|
                0 <= i < listing@.len() ==> self.workspaces().contains_key(
                    (#[trigger] listing@[i]).id@,
                ) && listing@[i] == info_of(
                    self.workspaces()[listing@[i].id@],
                    self.sessions().contains_key(listing@[i].id@),
                ),
            forall|i: int, j: int|
                0 <= i < j < listing@.len() ==> listing@[i].id@ != listing@[j].id@,
            forall|i: int, j: int|
                0 <= i < j < listing@.len() ==> !precedes(listing@[j].name@, listing@[i].name@),
    {
        proof {
            self.workspaces.lemma_entries();
        }
        let mut infos: Vec<WorkspaceInfo> = Vec::new();
        let mut keys: Vec<SortKey> = Vec::new();
        let mut i: usize = 0;
        while i < self.workspaces.len()
            invariant
                self.wf(),
                i <= self.workspaces.count(),
                infos@.len() == i,
                keys@.len() == i,
                forall|k: int|
                    0 <= k < i ==> (#[trigger] infos@[k]) == info_of(
                        self.workspaces.value_at(k),
                        self.sessions().contains_key(self.workspaces.key_at(k)),
                    ) && infos@[k].id@ == self.workspaces.key_at(k),
                forall|k: int|
                    0 <= k < i ==> (#[trigger] keys@[k])@ == (Key {
                        rank: 0,
                        text: infos@[k].name@,
                    }),
            decreases self.workspaces.count() - i,
        {
            proof {
                self.workspaces.lemma_entries();
                assert(self.workspaces().contains_key(self.workspaces.key_at(i as int)));
            }
            let entry = self.workspaces.value(i);
            let connected = self.sessions.contains_key(entry.id.as_str());
            keys.push(SortKey { rank: 0, text: chars_of(entry.name.as_str()) });
            infos.push(
                WorkspaceInfo {
                    id: entry.id.clone(),
                    name: entry.name.clone(),
                    path: entry.path.clone(),
                    connected,
                    codex_bin: copy_optional(&entry.codex_bin),
                },
            );
            i += 1;
        }
        let ghost unsorted = infos@;
        let ghost sort_keys = keys_of(keys@);
        let listing = sort_by_keys(infos, &keys);
        proof {
            self.workspaces.lemma_entries();
            let order = choose|order: Seq<usize>|
                {
                    &&& #[trigger] is_sorted_order(sort_keys, order)
                    &&& listing@.len() == unsorted.len()
                    &&& forall|k: int|
                        0 <= k < listing@.len() ==> #[trigger] listing@[k] == unsorted[order[k] as int]
                };
            lemma_sorted_order_is_permutation(sort_keys, order);
            assert forall|k: int| 0 <= k < listing@.len() implies self.workspaces().contains_key(
                (#[trigger] listing@[k]).id@,
            ) && listing@[k] == info_of(
                self.workspaces()[listing@[k].id@],
                self.sessions().contains_key(listing@[k].id@),
            ) by {
                let source = order[k] as int;
                assert(listing@[k] == unsorted[source]);
                assert(self.workspaces().contains_key(self.workspaces.key_at(source)));
            }
            assert forall|a: int, b: int| 0 <= a < b < listing@.len() implies listing@[a].id@
                != listing@[b].id@ by {
                assert(order[a] != order[b]);
                assert(listing@[a] == unsorted[order[a] as int]);
                assert(listing@[b] == unsorted[order[b] as int]);
            }
            assert forall|a: int, b: int| 0 <= a < b < listing@.len() implies !precedes(
                listing@[b].name@,
                listing@[a].name@,
            ) by {
                let x = order[a] as int;
                let y = order[b] as int;
                assert(listing@[a] == unsorted[x]);
                assert(listing@[b] == unsorted[y]);
                assert(sort_keys[x] == keys@[x]@);
                assert(sort_keys[y] == keys@[y]@);
                assert(sort_keys[x].text == unsorted[x].name@);
                assert(sort_keys[y].text == unsorted[y].name@);
                assert(crate::sorting::item_before(sort_keys, x, y));
                lemma_key_order(sort_keys[x], sort_keys[y], sort_keys[x]);
                crate::text::lemma_precedes_irreflexive(listing@[a].name@);
            }
        }
        listing
    }
}

} // verus!
