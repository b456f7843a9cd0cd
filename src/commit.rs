//! Commit coordination.
//!
//! A commit runs as a session: each call of `CommitSession::step` takes the
//! outcome of the previous effect and says which effect to perform next. The
//! caller performs the effects (resolving the table location, waiting for the
//! table's lock, opening the table, writing the batch) and releases the
//! table's lock handle when the session replies.
use vstd::prelude::*;
use crate::errors::DeltaTxnError;
use crate::table_lock::{RegistryModel, HandleModel, registry_wf, holds_lock, lemma_lock_excludes_others};
use crate::mapping::{Action, WireAction, map_actions, batch_valid, batch_translates, first_fault, ActionError};

verus! {

#[derive(Clone, Copy, PartialEq, Eq, Structural)]
pub enum CommitPhase {
    ResolvingTarget,
    AwaitingLock,
    OpeningTable,
    Writing,
    Finished,
}

/// How the store refused a write.
pub enum StoreFailure {
    /// The store found that another commit took the version first.
    Conflict { expected: i64, actual: i64 },
    /// Any other failure, with the store's message.
    Other(String),
}

/// The outcome of the effect that a session asked for last.
pub enum CommitEvent {
    /// The table identifier in canonical form, or why it is not a table location.
    TargetResolved(Result<String, String>),
    /// The handle on the table now holds the table's lock.
    LockGranted,
    /// The table's current version (none for a table without commits), or
    /// why the table could not be opened.
    TableOpened(Result<Option<i64>, String>),
    /// The version that the write committed, or how it failed.
    WriteFinished(Result<i64, StoreFailure>),
}

/// What the caller does next.
pub enum CommitEffect {
    /// Turn this identifier into its canonical table location.
    ResolveTarget(String),
    /// Obtain a handle for this table key and wait until it holds the lock.
    AcquireLock(String),
    /// Open a fresh snapshot of this table.
    OpenTable(String),
    /// Write the translated batch to this table.
    WriteActions(String),
    /// Give the table's lock back, if held, and answer with this outcome.
    Reply(Result<i64, DeltaTxnError>),
    /// The event does not belong to the session's phase; nothing to do.
    Wait,
}

pub struct CommitSession {
    pub phase: CommitPhase,
    /// The identifier as the caller gave it.
    pub table_uri: String,
    /// The canonical table key, once resolved.
    pub key: String,
    pub expected_version: Option<i64>,
}

/// The optimistic-concurrency check: with no expected version every current
/// version passes; otherwise the current version must be the expected one.
pub open spec fn version_check(expected: Option<i64>, current: Option<i64>) -> Result<(), DeltaTxnError> {
    match expected {
        None => Ok(()),
        Some(e) => match current {
            None => Err(DeltaTxnError::NotInitialized),
            Some(c) => if c == e {
                Ok(())
            } else {
                Err(DeltaTxnError::VersionConflict { expected: e, actual: c })
            },
        },
    }
}

pub open spec fn classify(f: StoreFailure) -> DeltaTxnError {
    match f {
        StoreFailure::Conflict { expected, actual } => DeltaTxnError::VersionConflict { expected, actual },
        StoreFailure::Other(m) => DeltaTxnError::CommitFailed(m),
    }
}

pub open spec fn in_phase(s: CommitSession, p: CommitPhase) -> CommitSession {
    CommitSession { phase: p, table_uri: s.table_uri, key: s.key, expected_version: s.expected_version }
}

/// The transition of a session on an event: its next state and effect.
pub open spec fn step_spec(s: CommitSession, ev: CommitEvent) -> (CommitSession, CommitEffect) {
    match ev {
        CommitEvent::TargetResolved(res) => if s.phase == CommitPhase::ResolvingTarget {
            match res {
                Ok(k) => (
                    CommitSession {
                        phase: CommitPhase::AwaitingLock,
                        table_uri: s.table_uri,
                        key: k,
                        expected_version: s.expected_version,
                    },
                    CommitEffect::AcquireLock(k),
                ),
                Err(m) => (
                    in_phase(s, CommitPhase::Finished),
                    CommitEffect::Reply(Err(DeltaTxnError::InvalidTarget(m))),
                ),
            }
        } else {
            (s, CommitEffect::Wait)
        },
        CommitEvent::LockGranted => if s.phase == CommitPhase::AwaitingLock {
            (in_phase(s, CommitPhase::OpeningTable), CommitEffect::OpenTable(s.key))
        } else {
            (s, CommitEffect::Wait)
        },
        CommitEvent::TableOpened(res) => if s.phase == CommitPhase::OpeningTable {
            match res {
                Err(m) => (
                    in_phase(s, CommitPhase::Finished),
                    CommitEffect::Reply(Err(DeltaTxnError::OpenFailed(m))),
                ),
                Ok(v) => match version_check(s.expected_version, v) {
                    Ok(_) => (in_phase(s, CommitPhase::Writing), CommitEffect::WriteActions(s.key)),
                    Err(e) => (in_phase(s, CommitPhase::Finished), CommitEffect::Reply(Err(e))),
                },
            }
        } else {
            (s, CommitEffect::Wait)
        },
        CommitEvent::WriteFinished(res) => if s.phase == CommitPhase::Writing {
            match res {
                Ok(v) => (in_phase(s, CommitPhase::Finished), CommitEffect::Reply(Ok(v))),
                Err(f) => (
                    in_phase(s, CommitPhase::Finished),
                    CommitEffect::Reply(Err(classify(f))),
                ),
            }
        } else {
            (s, CommitEffect::Wait)
        },
    }
}

/// The optimistic-concurrency check on a freshly opened table.
pub fn check_expected_version(expected: Option<i64>, current: Option<i64>) -> (r: Result<(), DeltaTxnError>)
    ensures
        r == version_check(expected, current),
{
    match expected {
        None => Ok(()),
        Some(e) => match current {
            None => Err(DeltaTxnError::NotInitialized),
            Some(c) => if c == e {
                Ok(())
            } else {
                Err(DeltaTxnError::VersionConflict { expected: e, actual: c })
            },
        },
    }
}

/// Maps a failed write to the commit's error.
pub fn classify_store_failure(f: StoreFailure) -> (r: DeltaTxnError)
    ensures
        r == classify(f),
{
    match f {
        StoreFailure::Conflict { expected, actual } => DeltaTxnError::VersionConflict { expected, actual },
        StoreFailure::Other(m) => DeltaTxnError::CommitFailed(m),
    }
}

impl CommitSession {
    /// Starts a commit. The batch is translated first, so a malformed action
    /// is refused before any lock is taken or the store is touched; otherwise
    /// the session asks for the identifier to be resolved.
    pub fn begin(table_uri: String, expected_version: Option<i64>, actions: Vec<WireAction>) -> (r: (
        CommitSession,
        CommitEffect,
        Vec<Action>,
    ))
        ensures
            r.0.table_uri == table_uri,
            r.0.expected_version == expected_version,
            batch_valid(actions@) ==> {
                &&& r.0.phase == CommitPhase::ResolvingTarget
                &&& r.1 == CommitEffect::ResolveTarget(table_uri)
                &&& batch_translates(actions@, r.2@)
            },
            !batch_valid(actions@) ==> {
                &&& r.0.phase == CommitPhase::Finished
                &&& r.1 matches CommitEffect::Reply(Err(DeltaTxnError::InvalidAction(e)))
                &&& first_fault(actions@, e)
                &&& r.2@.len() == 0
            },
    {
        let uri = table_uri.clone();
        match map_actions(actions) {
            Ok(translated) => (
                CommitSession {
                    phase: CommitPhase::ResolvingTarget,
                    table_uri,
                    key: String::new(),
                    expected_version,
                },
                CommitEffect::ResolveTarget(uri),
                translated,
            ),
            Err(m) => (
                CommitSession {
                    phase: CommitPhase::Finished,
                    table_uri,
                    key: String::new(),
                    expected_version,
                },
                CommitEffect::Reply(Err(DeltaTxnError::InvalidAction(m))),
                Vec::new(),
            ),
        }
    }

    /// Advances the session on the outcome of its last effect.
    pub fn step(&mut self, event: CommitEvent) -> (e: CommitEffect)
        ensures
            (*final(self), e) == step_spec(*old(self), event),
    {
        match event {
            CommitEvent::TargetResolved(res) => {
                if self.phase != CommitPhase::ResolvingTarget {
                    return CommitEffect::Wait;
                }
                match res {
                    Ok(k) => {
                        self.phase = CommitPhase::AwaitingLock;
                        self.key = k.clone();
                        CommitEffect::AcquireLock(k)
                    },
                    Err(m) => {
                        self.phase = CommitPhase::Finished;
                        CommitEffect::Reply(Err(DeltaTxnError::InvalidTarget(m)))
                    },
                }
            },
            CommitEvent::LockGranted => {
                if self.phase != CommitPhase::AwaitingLock {
                    return CommitEffect::Wait;
                }
                self.phase = CommitPhase::OpeningTable;
                CommitEffect::OpenTable(self.key.clone())
            },
            CommitEvent::TableOpened(res) => {
                if self.phase != CommitPhase::OpeningTable {
                    return CommitEffect::Wait;
                }
                match res {
                    Err(m) => {
                        self.phase = CommitPhase::Finished;
                        CommitEffect::Reply(Err(DeltaTxnError::OpenFailed(m)))
                    },
                    Ok(v) => match check_expected_version(self.expected_version, v) {
                        Ok(_) => {
                            self.phase = CommitPhase::Writing;
                            CommitEffect::WriteActions(self.key.clone())
                        },
                        Err(e) => {
                            self.phase = CommitPhase::Finished;
                            CommitEffect::Reply(Err(e))
                        },
                    },
                }
            },
            CommitEvent::WriteFinished(res) => {
                if self.phase != CommitPhase::Writing {
                    return CommitEffect::Wait;
                }
                self.phase = CommitPhase::Finished;
                match res {
                    Ok(v) => CommitEffect::Reply(Ok(v)),
                    Err(f) => CommitEffect::Reply(Err(classify_store_failure(f))),
                }
            },
        }
    }
}

/// A finished session is final: every later event leaves it unchanged and
/// asks for nothing, in particular for no write.
pub proof fn lemma_finished_is_final(s: CommitSession, ev: CommitEvent)
    requires
        s.phase == CommitPhase::Finished,
    ensures
        step_spec(s, ev) == (s, CommitEffect::Wait),
{
}

/// A stale expected version is refused with the expected and the actual
/// version, and the session finishes without asking for a write.
pub proof fn lemma_stale_version_rejected(s: CommitSession, expected: i64, current: i64)
    requires
        s.phase == CommitPhase::OpeningTable,
        s.expected_version == Some(expected),
        current != expected,
    ensures
        step_spec(s, CommitEvent::TableOpened(Ok(Some(current)))).0.phase == CommitPhase::Finished,
        step_spec(s, CommitEvent::TableOpened(Ok(Some(current)))).1 == CommitEffect::Reply(
            Err(DeltaTxnError::VersionConflict { expected, actual: current }),
        ),
{
}

/// With no expected version, every successfully opened table proceeds to the
/// write.
pub proof fn lemma_unconditional_commit_writes(s: CommitSession, current: Option<i64>)
    requires
        s.phase == CommitPhase::OpeningTable,
        s.expected_version is None,
    ensures
        step_spec(s, CommitEvent::TableOpened(Ok(current))).0.phase == CommitPhase::Writing,
        step_spec(s, CommitEvent::TableOpened(Ok(current))).1 == CommitEffect::WriteActions(s.key),
{
}

/// The table is opened only by a session whose handle was just granted the
/// table's lock, and only for the key that the lock was asked for.
pub proof fn lemma_open_only_under_lock(s: CommitSession, ev: CommitEvent)
    requires
        step_spec(s, ev).1 is OpenTable,
    ensures
        s.phase == CommitPhase::AwaitingLock,
        ev is LockGranted,
        step_spec(s, ev).1 == CommitEffect::OpenTable(s.key),
{
}

/// A write is asked for only from a session that opened the table and passed
/// the version check, and only for the table key whose lock it was granted.
pub proof fn lemma_write_only_after_check(s: CommitSession, ev: CommitEvent)
    requires
        step_spec(s, ev).1 is WriteActions,
    ensures
        s.phase == CommitPhase::OpeningTable,
        ev matches CommitEvent::TableOpened(Ok(v)) && version_check(s.expected_version, v) is Ok,
        step_spec(s, ev).1 == CommitEffect::WriteActions(s.key),
{
}

/// The session is between opening the table and the end of its write.
pub open spec fn in_critical_section(s: CommitSession) -> bool {
    s.phase == CommitPhase::OpeningTable || s.phase == CommitPhase::Writing
}

/// One commit per table at a time: a session enters its critical section only
/// on `LockGranted`, and a caller that grants it only while the session's
/// handle holds the table's lock, and keeps that handle until the session
/// replies, never has two sessions of one table in their critical sections
/// with different handles.
pub proof fn lemma_one_commit_per_table(
    m: RegistryModel,
    s1: CommitSession,
    h1: HandleModel,
    s2: CommitSession,
    h2: HandleModel,
)
    requires
        registry_wf(m),
        in_critical_section(s1),
        in_critical_section(s2),
        s1.key@ == s2.key@,
        h1.key == s1.key@,
        h2.key == s2.key@,
        holds_lock(m, h1),
        holds_lock(m, h2),
    ensures
        h1.serial == h2.serial,
{
    if h1.serial != h2.serial {
        lemma_lock_excludes_others(m, h1, h2);
    }
}

/// Entering the critical section takes exactly the lock grant.
pub proof fn lemma_critical_section_entered_on_grant(s: CommitSession, ev: CommitEvent)
    requires
        !in_critical_section(s),
        in_critical_section(step_spec(s, ev).0),
    ensures
        s.phase == CommitPhase::AwaitingLock,
        ev is LockGranted,
{
}

} // verus!
