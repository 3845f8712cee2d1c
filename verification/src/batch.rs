//! The batch mutation orchestrator: the three bulk verbs (add, remove,
//! finish) as two-phase state machines.
//!
//! Each machine is a pure step function from state and remote answer to
//! next state and next remote call. An unverified driver performs each
//! returned action against the remote service and feeds the answer back
//! in. Remove and finish first resolve every input token against one
//! enumeration snapshot and abort before any mutation if any token has
//! no match; mutations are then issued one at a time, in input order,
//! and the batch stops at the first failure, mutations already applied
//! staying in place (the remote service offers no transaction to roll
//! them back with).

use vstd::prelude::*;

use crate::model::Error;
use crate::model::Item;
use crate::model::Task;
use crate::resolve::batch_resolved;
use crate::resolve::resolve_all;
use crate::resolve::resolve_spec;

verus! {

/// Whether every token of a batch has a match in the enumeration.
pub open spec fn all_tokens_resolve(tokens: Seq<String>, items: Seq<Item>) -> bool {
    forall|i: int| 0 <= i < tokens.len() ==> resolve_spec(#[trigger] tokens[i]@, items) is Some
}

/// The completion timestamp for a finished task.
///
/// Relies on `chrono::Utc::now` and `chrono::DateTime::to_rfc3339`: the
/// current instant rendered as an RFC 3339 timestamp, which is never
/// empty. The value depends on the clock, so nothing more is assumed of
/// it.
#[verifier::external_body]
fn now_rfc3339() -> (r: String)
    ensures
        r@.len() > 0,
{
    chrono::Utc::now().to_rfc3339()
}

/// The patch payload that finishes a task: the fields of the fetched
/// task with the completion timestamp set, the hidden flag set, and the
/// identifier forced to the one captured at resolution time, so that
/// the mutation targets the resolved item even if the fetch raced with
/// a remote change.
pub fn finish_payload(id: &String, fetched: &Task, completed: String) -> (t: Task)
    ensures
        t.id == *id,
        t.title == fetched.title,
        t.completed == Some(completed),
        t.hidden == Some(true),
{
    Task {
        id: id.clone(),
        title: fetched.title.clone(),
        completed: Some(completed),
        hidden: Some(true),
    }
}

/// What the driver of a remove batch must do next.
#[derive(Debug)]
pub enum RemoveAction {
    /// Delete the item with this identifier.
    Delete(String),
    /// The batch is over; the state holds the outcome.
    Stop,
}

/// What the remote service answered during a remove batch.
pub enum RemoveEvent {
    /// The enumeration one fetch of the collection returned.
    Enumeration(Vec<Item>),
    /// The delete in flight succeeded.
    DeleteOk,
    /// The call in flight failed.
    Failure(Error),
}

/// The phase of a remove batch.
#[derive(Debug)]
pub enum RemoveState {
    /// Waiting for the enumeration snapshot; nothing mutated yet.
    Resolving,
    /// Every token resolved; deletes `0 .. issued` of `ids` have been
    /// issued, in input order, and the last of them is in flight.
    Deleting { ids: Vec<String>, issued: usize },
    /// Every resolved identifier was deleted.
    Done,
    /// Resolution or a mutation failed. Mutations already applied are
    /// not rolled back, and no further mutation is ever issued.
    Failed(Error),
}

/// A two-phase remove batch: fetch one enumeration, resolve every
/// token against it, then delete each resolved identifier in input
/// order, stopping at the first failure.
pub struct RemoveBatch {
    pub tokens: Vec<String>,
    pub state: RemoveState,
    /// The enumeration snapshot the identifiers were resolved against.
    pub snapshot: Ghost<Seq<Item>>,
}

impl RemoveBatch {
    /// In the deleting phase the identifiers are exactly the
    /// resolution of the tokens against the one snapshot, and at least
    /// one but no more deletes than identifiers have been issued.
    pub open spec fn wf(self) -> bool {
        match self.state {
            RemoveState::Deleting { ids, issued } => batch_resolved(
                self.tokens@,
                self.snapshot@,
                ids@,
            ) && 1 <= issued <= ids@.len(),
            _ => true,
        }
    }

    /// Which answers the driver may feed in: the enumeration while
    /// resolving, a delete outcome while a delete is in flight, and a
    /// failure whenever any call was in flight. `Done` and `Failed`
    /// are terminal: no event is accepted, so no action ever follows.
    pub open spec fn accepts(self, event: RemoveEvent) -> bool {
        match (self.state, event) {
            (RemoveState::Resolving, RemoveEvent::Enumeration(_)) => true,
            (RemoveState::Resolving, RemoveEvent::Failure(_)) => true,
            (RemoveState::Deleting { .. }, RemoveEvent::DeleteOk) => true,
            (RemoveState::Deleting { .. }, RemoveEvent::Failure(_)) => true,
            _ => false,
        }
    }

    /// Start a remove batch over these tokens. The driver must fetch
    /// one fresh enumeration of the collection and feed it in; nothing
    /// is mutated before that, nor before every token has resolved
    /// against it.
    pub fn new(tokens: Vec<String>) -> (b: Self)
        ensures
            b.wf(),
            b.state is Resolving,
            b.tokens@ == tokens@,
    {
        RemoveBatch { tokens, state: RemoveState::Resolving, snapshot: Ghost(Seq::empty()) }
    }

    /// Advance the batch by one remote answer; the returned action is
    /// what the driver must do next.
    ///
    /// On the enumeration: if any token has no match, the batch fails
    /// with `IdentifierNotFound` naming the first such token and no
    /// delete is ever issued; otherwise deletes are issued one at a
    /// time, in input order. On a failure the batch stops at once:
    /// deletes already applied stay in place and the remainder is
    /// never attempted.
    pub fn step(self, event: RemoveEvent) -> (r: (Self, RemoveAction))
        requires
            self.wf(),
            self.accepts(event),
        ensures
            r.0.wf(),
            r.0.tokens@ == self.tokens@,
            match event {
                RemoveEvent::Enumeration(items) => {
                    if all_tokens_resolve(self.tokens@, items@) {
                        if self.tokens@.len() == 0 {
                            r.0.state is Done && r.1 is Stop
                        } else {
                            match r.0.state {
                                RemoveState::Deleting { ids, issued } => batch_resolved(
                                    self.tokens@,
                                    items@,
                                    ids@,
                                ) && issued == 1 && r.1 == RemoveAction::Delete(ids@[0]),
                                _ => false,
                            }
                        }
                    } else {
                        r.1 is Stop && match r.0.state {
                            RemoveState::Failed(e) => match e {
                                Error::IdentifierNotFound { token } => exists|k: int|
                                    0 <= k < self.tokens@.len() && token@ == self.tokens@[k]@
                                        && resolve_spec(self.tokens@[k]@, items@) is None,
                                _ => false,
                            },
                            _ => false,
                        }
                    }
                },
                RemoveEvent::DeleteOk => {
                    match (self.state, r.0.state) {
                        (
                            RemoveState::Deleting { ids, issued },
                            RemoveState::Deleting { ids: ids2, issued: issued2 },
                        ) => issued < ids@.len() && ids2@ == ids@ && issued2 == issued + 1 && r.1
                            == RemoveAction::Delete(ids@[issued as int]),
                        (RemoveState::Deleting { ids, issued }, RemoveState::Done) => issued
                            == ids@.len() && r.1 is Stop,
                        _ => false,
                    }
                },
                RemoveEvent::Failure(e) => r.0.state == RemoveState::Failed(e) && r.1 is Stop,
            },
    {
        let RemoveBatch { tokens, state, snapshot } = self;
        match event {
            RemoveEvent::Failure(e) => (
                RemoveBatch { tokens, state: RemoveState::Failed(e), snapshot },
                RemoveAction::Stop,
            ),
            RemoveEvent::Enumeration(items) => {
                match resolve_all(&tokens, &items) {
                    Ok(ids) => {
                        if ids.len() == 0 {
                            (
                                RemoveBatch { tokens, state: RemoveState::Done, snapshot },
                                RemoveAction::Stop,
                            )
                        } else {
                            let first = ids[0].clone();
                            (
                                RemoveBatch {
                                    tokens,
                                    state: RemoveState::Deleting { ids, issued: 1 },
                                    snapshot: Ghost(items@),
                                },
                                RemoveAction::Delete(first),
                            )
                        }
                    },
                    Err(k) => {
                        let token = tokens[k].clone();
                        (
                            RemoveBatch {
                                tokens,
                                state: RemoveState::Failed(Error::IdentifierNotFound { token }),
                                snapshot,
                            },
                            RemoveAction::Stop,
                        )
                    },
                }
            },
            RemoveEvent::DeleteOk => {
                match state {
                    RemoveState::Deleting { ids, issued } => {
                        if issued < ids.len() {
                            let id = ids[issued].clone();
                            (
                                RemoveBatch {
                                    tokens,
                                    state: RemoveState::Deleting { ids, issued: issued + 1 },
                                    snapshot,
                                },
                                RemoveAction::Delete(id),
                            )
                        } else {
                            (
                                RemoveBatch { tokens, state: RemoveState::Done, snapshot },
                                RemoveAction::Stop,
                            )
                        }
                    },
                    _ => {
                        proof {
                            assert(false);
                        }
                        (
                            RemoveBatch { tokens, state: RemoveState::Done, snapshot },
                            RemoveAction::Stop,
                        )
                    },
                }
            },
        }
    }
}

/// Law: a finished or failed remove batch accepts no further event.
/// After a resolution or delete failure no delete is ever issued, and
/// nothing follows completion; deletes already applied are final.
pub proof fn lemma_remove_terminal_accepts_nothing(batch: RemoveBatch, event: RemoveEvent)
    requires
        batch.state is Done || batch.state is Failed,
    ensures
        !batch.accepts(event),
{
}

/// What the driver of a finish batch must do next.
#[derive(Debug)]
pub enum FinishAction {
    /// Fetch the task with this identifier.
    Get(String),
    /// Patch the task with identifier `id` to the fields of `task`.
    Patch { id: String, task: Task },
    /// The batch is over; the state holds the outcome.
    Stop,
}

/// What the remote service answered during a finish batch.
pub enum FinishEvent {
    /// The enumeration one fetch of the collection returned.
    Enumeration(Vec<Item>),
    /// The task the get in flight returned.
    Fetched(Task),
    /// The patch in flight succeeded.
    PatchOk,
    /// The call in flight failed.
    Failure(Error),
}

/// The phase of a finish batch.
#[derive(Debug)]
pub enum FinishState {
    /// Waiting for the enumeration snapshot; nothing mutated yet.
    Resolving,
    /// Every token resolved; a get of the item at position `at` of
    /// `ids` is in flight, items before `at` already finished.
    Getting { ids: Vec<String>, at: usize },
    /// A patch of the item at position `at` of `ids` is in flight.
    Patching { ids: Vec<String>, at: usize },
    /// Every resolved task was fetched, finished and patched back.
    Done,
    /// Resolution or a mutation failed. Patches already applied are
    /// not rolled back, and no further mutation is ever issued.
    Failed(Error),
}

/// A two-phase finish batch: fetch one enumeration, resolve every
/// token against it, then for each resolved identifier in input order
/// fetch the task, set its completion timestamp and hidden flag, and
/// patch it back, stopping at the first failure.
pub struct FinishBatch {
    pub tokens: Vec<String>,
    pub state: FinishState,
    /// The enumeration snapshot the identifiers were resolved against.
    pub snapshot: Ghost<Seq<Item>>,
}

impl FinishBatch {
    /// In the mutation phase the identifiers are exactly the
    /// resolution of the tokens against the one snapshot and `at`
    /// points at an identifier.
    pub open spec fn wf(self) -> bool {
        match self.state {
            FinishState::Getting { ids, at } => batch_resolved(self.tokens@, self.snapshot@, ids@)
                && at < ids@.len(),
            FinishState::Patching { ids, at } => batch_resolved(self.tokens@, self.snapshot@, ids@)
                && at < ids@.len(),
            _ => true,
        }
    }

    /// Which answers the driver may feed in, phase by phase. `Done`
    /// and `Failed` are terminal: no event is accepted, so no action
    /// ever follows.
    pub open spec fn accepts(self, event: FinishEvent) -> bool {
        match (self.state, event) {
            (FinishState::Resolving, FinishEvent::Enumeration(_)) => true,
            (FinishState::Resolving, FinishEvent::Failure(_)) => true,
            (FinishState::Getting { .. }, FinishEvent::Fetched(_)) => true,
            (FinishState::Getting { .. }, FinishEvent::Failure(_)) => true,
            (FinishState::Patching { .. }, FinishEvent::PatchOk) => true,
            (FinishState::Patching { .. }, FinishEvent::Failure(_)) => true,
            _ => false,
        }
    }

    /// Start a finish batch over these tokens. The driver must fetch
    /// one fresh enumeration of the collection and feed it in; nothing
    /// is mutated before that, nor before every token has resolved
    /// against it.
    pub fn new(tokens: Vec<String>) -> (b: Self)
        ensures
            b.wf(),
            b.state is Resolving,
            b.tokens@ == tokens@,
    {
        FinishBatch { tokens, state: FinishState::Resolving, snapshot: Ghost(Seq::empty()) }
    }

    /// Advance the batch by one remote answer; the returned action is
    /// what the driver must do next.
    ///
    /// On the enumeration: if any token has no match, the batch fails
    /// with `IdentifierNotFound` naming the first such token and no
    /// mutation is ever issued. Each fetched task is patched back with
    /// its completion timestamp set, its hidden flag set true, its
    /// title kept, and the identifier captured at resolution time,
    /// even if the fetched copy carried another. On a failure the
    /// batch stops at once: patches already applied stay in place and
    /// the remainder is never attempted.
    pub fn step(self, event: FinishEvent) -> (r: (Self, FinishAction))
        requires
            self.wf(),
            self.accepts(event),
        ensures
            r.0.wf(),
            r.0.tokens@ == self.tokens@,
            match event {
                FinishEvent::Enumeration(items) => {
                    if all_tokens_resolve(self.tokens@, items@) {
                        if self.tokens@.len() == 0 {
                            r.0.state is Done && r.1 is Stop
                        } else {
                            match r.0.state {
                                FinishState::Getting { ids, at } => batch_resolved(
                                    self.tokens@,
                                    items@,
                                    ids@,
                                ) && at == 0 && r.1 == FinishAction::Get(ids@[0]),
                                _ => false,
                            }
                        }
                    } else {
                        r.1 is Stop && match r.0.state {
                            FinishState::Failed(e) => match e {
                                Error::IdentifierNotFound { token } => exists|k: int|
                                    0 <= k < self.tokens@.len() && token@ == self.tokens@[k]@
                                        && resolve_spec(self.tokens@[k]@, items@) is None,
                                _ => false,
                            },
                            _ => false,
                        }
                    }
                },
                FinishEvent::Fetched(task) => {
                    match (self.state, r.0.state) {
                        (
                            FinishState::Getting { ids, at },
                            FinishState::Patching { ids: ids2, at: at2 },
                        ) => ids2@ == ids@ && at2 == at && match r.1 {
                            FinishAction::Patch { id, task: t } => id == ids@[at as int] && t.id
                                == ids@[at as int] && t.title == task.title && t.hidden
                                == Some(true) && match t.completed {
                                Some(c) => c@.len() > 0,
                                None => false,
                            },
                            _ => false,
                        },
                        _ => false,
                    }
                },
                FinishEvent::PatchOk => {
                    match (self.state, r.0.state) {
                        (
                            FinishState::Patching { ids, at },
                            FinishState::Getting { ids: ids2, at: at2 },
                        ) => at + 1 < ids@.len() && ids2@ == ids@ && at2 == at + 1 && r.1
                            == FinishAction::Get(ids@[at + 1]),
                        (FinishState::Patching { ids, at }, FinishState::Done) => at + 1
                            == ids@.len() && r.1 is Stop,
                        _ => false,
                    }
                },
                FinishEvent::Failure(e) => r.0.state == FinishState::Failed(e) && r.1 is Stop,
            },
    {
        let FinishBatch { tokens, state, snapshot } = self;
        match event {
            FinishEvent::Failure(e) => (
                FinishBatch { tokens, state: FinishState::Failed(e), snapshot },
                FinishAction::Stop,
            ),
            FinishEvent::Enumeration(items) => {
                match resolve_all(&tokens, &items) {
                    Ok(ids) => {
                        if ids.len() == 0 {
                            (
                                FinishBatch { tokens, state: FinishState::Done, snapshot },
                                FinishAction::Stop,
                            )
                        } else {
                            let first = ids[0].clone();
                            (
                                FinishBatch {
                                    tokens,
                                    state: FinishState::Getting { ids, at: 0 },
                                    snapshot: Ghost(items@),
                                },
                                FinishAction::Get(first),
                            )
                        }
                    },
                    Err(k) => {
                        let token = tokens[k].clone();
                        (
                            FinishBatch {
                                tokens,
                                state: FinishState::Failed(Error::IdentifierNotFound { token }),
                                snapshot,
                            },
                            FinishAction::Stop,
                        )
                    },
                }
            },
            FinishEvent::Fetched(task) => {
                match state {
                    FinishState::Getting { ids, at } => {
                        let id = ids[at].clone();
                        let completed = now_rfc3339();
                        let payload = finish_payload(&id, &task, completed);
                        (
                            FinishBatch {
                                tokens,
                                state: FinishState::Patching { ids, at },
                                snapshot,
                            },
                            FinishAction::Patch { id, task: payload },
                        )
                    },
                    _ => {
                        proof {
                            assert(false);
                        }
                        (
                            FinishBatch { tokens, state: FinishState::Done, snapshot },
                            FinishAction::Stop,
                        )
                    },
                }
            },
            FinishEvent::PatchOk => {
                match state {
                    FinishState::Patching { ids, at } => {
                        let n = ids.len();
                        if at + 1 < n {
                            let id = ids[at + 1].clone();
                            (
                                FinishBatch {
                                    tokens,
                                    state: FinishState::Getting { ids, at: at + 1 },
                                    snapshot,
                                },
                                FinishAction::Get(id),
                            )
                        } else {
                            (
                                FinishBatch { tokens, state: FinishState::Done, snapshot },
                                FinishAction::Stop,
                            )
                        }
                    },
                    _ => {
                        proof {
                            assert(false);
                        }
                        (
                            FinishBatch { tokens, state: FinishState::Done, snapshot },
                            FinishAction::Stop,
                        )
                    },
                }
            },
        }
    }
}

/// Law: a finished or failed finish batch accepts no further event.
/// After a resolution, fetch or patch failure no mutation is ever
/// issued, and nothing follows completion; patches already applied are
/// final.
pub proof fn lemma_finish_terminal_accepts_nothing(batch: FinishBatch, event: FinishEvent)
    requires
        batch.state is Done || batch.state is Failed,
    ensures
        !batch.accepts(event),
{
}

/// What the driver of an add batch must do next.
#[derive(Debug)]
pub enum AddAction {
    /// Insert a new item with this title.
    Insert(String),
    /// The batch is over; the state holds the outcome.
    Stop,
}

/// What the remote service answered during an add batch.
pub enum AddEvent {
    /// The insert in flight succeeded.
    InsertOk,
    /// The insert in flight failed.
    Failure(Error),
}

/// The phase of an add batch.
#[derive(Debug)]
pub enum AddState {
    /// Inserts `0 .. issued` of the titles have been issued, in input
    /// order, and the last of them is in flight.
    Inserting { issued: usize },
    /// Every title was inserted.
    Done,
    /// An insert failed. Inserts already applied are not rolled back,
    /// and no further insert is ever issued.
    Failed(Error),
}

/// A bulk add: each input title is inserted as a new item directly,
/// one at a time, in input order, stopping at the first failure. There
/// is no resolution phase.
pub struct AddBatch {
    pub titles: Vec<String>,
    pub state: AddState,
}

impl AddBatch {
    /// While inserting, at least one but no more inserts than titles
    /// have been issued.
    pub open spec fn wf(self) -> bool {
        match self.state {
            AddState::Inserting { issued } => 1 <= issued <= self.titles@.len(),
            _ => true,
        }
    }

    /// Which answers the driver may feed in: an insert outcome while
    /// an insert is in flight. `Done` and `Failed` are terminal.
    pub open spec fn accepts(self, event: AddEvent) -> bool {
        self.state is Inserting
    }

    /// Start an add batch over these titles, returning the first
    /// action: the first insert, or nothing to do for an empty batch.
    pub fn new(titles: Vec<String>) -> (r: (Self, AddAction))
        ensures
            r.0.wf(),
            r.0.titles@ == titles@,
            if titles@.len() == 0 {
                r.0.state is Done && r.1 is Stop
            } else {
                r.0.state == (AddState::Inserting { issued: 1usize }) && r.1 == AddAction::Insert(
                    titles@[0],
                )
            },
    {
        if titles.len() == 0 {
            (AddBatch { titles, state: AddState::Done }, AddAction::Stop)
        } else {
            let first = titles[0].clone();
            (
                AddBatch { titles, state: AddState::Inserting { issued: 1 } },
                AddAction::Insert(first),
            )
        }
    }

    /// Advance the batch by one remote answer; the returned action is
    /// what the driver must do next. Inserts are issued one at a time,
    /// in input order; on a failure the batch stops at once, inserts
    /// already applied staying in place and the remainder never
    /// attempted.
    pub fn step(self, event: AddEvent) -> (r: (Self, AddAction))
        requires
            self.wf(),
            self.accepts(event),
        ensures
            r.0.wf(),
            r.0.titles@ == self.titles@,
            match event {
                AddEvent::InsertOk => {
                    match (self.state, r.0.state) {
                        (
                            AddState::Inserting { issued },
                            AddState::Inserting { issued: issued2 },
                        ) => issued < self.titles@.len() && issued2 == issued + 1 && r.1
                            == AddAction::Insert(self.titles@[issued as int]),
                        (AddState::Inserting { issued }, AddState::Done) => issued
                            == self.titles@.len() && r.1 is Stop,
                        _ => false,
                    }
                },
                AddEvent::Failure(e) => r.0.state == AddState::Failed(e) && r.1 is Stop,
            },
    {
        let AddBatch { titles, state } = self;
        match event {
            AddEvent::Failure(e) => (
                AddBatch { titles, state: AddState::Failed(e) },
                AddAction::Stop,
            ),
            AddEvent::InsertOk => {
                match state {
                    AddState::Inserting { issued } => {
                        if issued < titles.len() {
                            let title = titles[issued].clone();
                            (
                                AddBatch { titles, state: AddState::Inserting { issued: issued + 1 } },
                                AddAction::Insert(title),
                            )
                        } else {
                            (AddBatch { titles, state: AddState::Done }, AddAction::Stop)
                        }
                    },
                    _ => {
                        proof {
                            assert(false);
                        }
                        (AddBatch { titles, state: AddState::Done }, AddAction::Stop)
                    },
                }
            },
        }
    }
}

/// Law: a finished or failed add batch accepts no further event.
/// After an insert failure no insert is ever issued, and nothing
/// follows completion; inserts already applied are final.
pub proof fn lemma_add_terminal_accepts_nothing(batch: AddBatch, event: AddEvent)
    requires
        batch.state is Done || batch.state is Failed,
    ensures
        !batch.accepts(event),
{
}

} // verus!
