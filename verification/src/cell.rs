//! The cell in which the poller leaves the latest outcome for the renderer.
//!
//! [`ResultCell`] is the owned state: one outcome, replaced whole.
//! [`SharedResultCell`] puts it behind a reader-writer lock so that the
//! poller and the renderer can hold it at once.

use vstd::prelude::*;
use std::sync::Arc;
use std::sync::RwLock;
use crate::error::FatalError;
use crate::poll::{PollResult, PollResultView};

verus! {

/// The reader-writer lock of std.
#[verifier::external_type_specification]
#[verifier::external_body]
#[verifier::reject_recursive_types(T)]
pub struct ExRwLock<T: ?Sized>(RwLock<T>);

/// The owned state behind the lock: exactly one outcome at any time.
#[derive(Debug)]
pub struct ResultCell {
    value: PollResult,
}

impl View for ResultCell {
    type V = PollResultView;

    closed spec fn view(&self) -> PollResultView {
        self.value@
    }
}

impl ResultCell {
    /// A cell that holds no outcome yet.
    pub fn new() -> (cell: ResultCell)
        ensures
            cell@ == PollResultView::Unpopulated,
    {
        ResultCell { value: PollResult::Unpopulated }
    }

    /// Swaps the held outcome for `new_value`, whole.
    pub fn replace(&mut self, new_value: PollResult)
        ensures
            final(self)@ == new_value@,
    {
        self.value = new_value;
    }

    /// A copy of the held outcome.
    pub fn snapshot(&self) -> (held: PollResult)
        ensures
            held@ == self@,
    {
        self.value.clone()
    }
}

/// One call on a cell: a replace with its argument, or a snapshot.
pub enum CellOp {
    Replace(PollResultView),
    Snapshot,
}

/// What a new cell holds after the calls of `history`, run one after the
/// other.
pub open spec fn held_after(history: Seq<CellOp>) -> PollResultView
    decreases history.len(),
{
    if history.len() == 0 {
        PollResultView::Unpopulated
    } else {
        match history.last() {
            CellOp::Replace(value) => value,
            CellOp::Snapshot => held_after(history.drop_last()),
        }
    }
}

/// What the call at position `at` of `history` finds in the cell.
pub open spec fn seen_at(history: Seq<CellOp>, at: int) -> PollResultView {
    held_after(history.take(at))
}

/// Position `from` holds the latest replace before position `at`.
pub open spec fn latest_replace(history: Seq<CellOp>, from: int, at: int) -> bool {
    &&& 0 <= from < at
    &&& history[from] is Replace
    &&& forall|k: int| from < k < at ==> history[k] is Snapshot
}

/// In any order of replaces and snapshots on one cell, a snapshot returns
/// the argument of the latest replace that came before it, whole, or the
/// unpopulated value where no replace came before it.
pub proof fn lemma_snapshot_sees_latest_replace(history: Seq<CellOp>, at: int)
    requires
        0 <= at <= history.len(),
    ensures
        seen_at(history, at) == PollResultView::Unpopulated && (forall|k: int|
            0 <= k < at ==> history[k] is Snapshot) || exists|from: int|
            #[trigger] latest_replace(history, from, at) && history[from] == CellOp::Replace(
                seen_at(history, at),
            ),
    decreases at,
{
    let before = history.take(at);
    if at == 0 {
    } else {
        match before.last() {
            CellOp::Replace(value) => {
                assert(before.last() == history[at - 1]);
                assert(latest_replace(history, at - 1, at));
            },
            CellOp::Snapshot => {
                assert(before.last() == history[at - 1]);
                assert(before.drop_last() =~= history.take(at - 1));
                lemma_snapshot_sees_latest_replace(history, at - 1);
                if seen_at(history, at - 1) == PollResultView::Unpopulated && (forall|k: int|
                    0 <= k < at - 1 ==> history[k] is Snapshot) {
                } else {
                    let from = choose|from: int|
                        #[trigger] latest_replace(history, from, at - 1) && history[from]
                            == CellOp::Replace(seen_at(history, at - 1));
                    assert(latest_replace(history, from, at));
                }
            },
        }
    }
}

/// Calls `RwLock::new`.
#[verifier::external_body]
fn new_lock(cell: ResultCell) -> RwLock<ResultCell> {
    RwLock::new(cell)
}

/// Calls `RwLock::write` and, with exclusive access, replaces what the
/// cell holds. Answers whether the lock could be taken; std refuses a
/// poisoned lock.
#[verifier::external_body]
fn write_cell(lock: &RwLock<ResultCell>, value: PollResult) -> (stored: bool) {
    lock.write().map(|mut cell| cell.replace(value)).is_ok()
}

/// Calls `RwLock::read` and, with shared access, copies what the cell
/// holds. Answers `None` where the lock is poisoned. What is found depends
/// on the writers, so nothing is promised of it.
#[verifier::external_body]
fn read_cell(lock: &RwLock<ResultCell>) -> (held: Option<PollResult>) {
    lock.read().ok().map(|cell| cell.snapshot())
}

/// The cell shared between the poller, which replaces its outcome, and the
/// renderer, which reads it. Copies of the handle reach the same cell.
#[derive(Debug)]
pub struct SharedResultCell {
    state: Arc<RwLock<ResultCell>>,
}

impl SharedResultCell {
    /// A cell of its own that holds no outcome yet.
    pub fn new() -> (cell: SharedResultCell) {
        SharedResultCell { state: Arc::new(new_lock(ResultCell::new())) }
    }

    /// Swaps the held outcome for `new_value` under exclusive access, so
    /// that no reader sees a part of it. Fails where the lock is poisoned.
    pub fn replace(&self, new_value: PollResult) -> (done: Result<(), FatalError>)
        ensures
            done is Err ==> done == Err::<(), FatalError>(FatalError::CellPoisoned),
    {
        SharedResultCell::after_write(write_cell(&self.state, new_value))
    }

    /// A copy of the outcome that the cell holds now. Fails where the lock
    /// is poisoned.
    pub fn snapshot(&self) -> (held: Result<PollResult, FatalError>)
        ensures
            held is Err ==> held == Err::<PollResult, FatalError>(FatalError::CellPoisoned),
    {
        SharedResultCell::after_read(read_cell(&self.state))
    }

    /// What a replace answers once the lock has answered: it is done where
    /// the lock was taken and the value stored, and the cell is poisoned
    /// where the lock refused.
    pub fn after_write(stored: bool) -> (done: Result<(), FatalError>)
        ensures
            done == (if stored {
                Ok::<(), FatalError>(())
            } else {
                Err::<(), FatalError>(FatalError::CellPoisoned)
            }),
    {
        if stored {
            Ok(())
        } else {
            Err(FatalError::CellPoisoned)
        }
    }

    /// What a snapshot answers once the lock has answered: the outcome
    /// that was found behind the lock, as it was found, and the cell is
    /// poisoned where the lock refused.
    pub fn after_read(found: Option<PollResult>) -> (held: Result<PollResult, FatalError>)
        ensures
            held == (match found {
                Some(value) => Ok::<PollResult, FatalError>(value),
                None => Err::<PollResult, FatalError>(FatalError::CellPoisoned),
            }),
    {
        match found {
            Some(value) => Ok(value),
            None => Err(FatalError::CellPoisoned),
        }
    }
}

impl Clone for SharedResultCell {
    fn clone(&self) -> (handle: SharedResultCell) {
        SharedResultCell { state: self.state.clone() }
    }
}

} // verus!
