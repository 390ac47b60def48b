//! Batches and the cancellation gate: a run over several items that looks
//! at the cancellation flag before each item, records how every item ended
//! and reports what was left undone.

use crate::error::EngineError;
use vstd::prelude::*;

verus! {

/// How one item of a batch ended.
#[derive(Debug, Clone, Copy, PartialEq, Eq, Structural)]
pub enum ItemOutcome {
    /// The item was processed; these are its sizes.
    Succeeded { input_size: u64, output_size: u64 },
    /// The item failed; the batch goes on.
    Failed,
    /// The item was not one the operation applies to.
    Skipped,
}

/// The state of a batch as plain numbers.
pub ghost struct BatchState {
    /// The number of items of the batch.
    pub total: nat,
    /// The number of items whose work was begun.
    pub started: nat,
    pub succeeded: nat,
    pub failed: nat,
    pub skipped: nat,
    /// The total input size of the items that succeeded.
    pub input_bytes: nat,
    /// The total output size of the items that succeeded.
    pub output_bytes: nat,
    /// Whether a cancellation request has been seen.
    pub cancelled: bool,
}

impl BatchState {
    /// A batch of `total` items of which none has been begun.
    pub open spec fn new(total: nat) -> BatchState {
        BatchState {
            total,
            started: 0,
            succeeded: 0,
            failed: 0,
            skipped: 0,
            input_bytes: 0,
            output_bytes: 0,
            cancelled: false,
        }
    }

    /// The number of items whose outcome has been recorded.
    pub open spec fn completed(self) -> nat {
        self.succeeded + self.failed + self.skipped
    }

    /// Whether an item has been begun whose outcome is still to be recorded.
    pub open spec fn pending(self) -> bool {
        self.started > self.completed()
    }

    /// The number of items that were never begun.
    pub open spec fn remaining(self) -> nat {
        (self.total - self.started) as nat
    }

    /// At most one item is in flight, and no more items were begun than the
    /// batch has.
    pub open spec fn wf(self) -> bool {
        self.completed() <= self.started <= self.total && self.started <= self.completed() + 1
    }

    /// The item to begin after a look at the cancellation flag, if any: none
    /// once a request has been seen or every item has been begun.
    pub open spec fn next_item(self, flag: u64) -> Option<nat> {
        if !self.cancelled && self.started < self.total && flag == 0 {
            Some(self.started)
        } else {
            None
        }
    }

    /// The state after a look at the cancellation flag before the next
    /// item: a nonzero flag halts the batch for good, a zero flag begins the
    /// next item if there is one.
    pub open spec fn gate(self, flag: u64) -> BatchState {
        if self.cancelled || self.started >= self.total {
            self
        } else if flag != 0 {
            BatchState { cancelled: true, ..self }
        } else {
            BatchState { started: self.started + 1, ..self }
        }
    }

    /// The state after the outcome of the item in flight has been recorded.
    pub open spec fn record(self, outcome: ItemOutcome) -> BatchState {
        match outcome {
            ItemOutcome::Succeeded { input_size, output_size } => BatchState {
                succeeded: self.succeeded + 1,
                input_bytes: self.input_bytes + input_size as nat,
                output_bytes: self.output_bytes + output_size as nat,
                ..self
            },
            ItemOutcome::Failed => BatchState { failed: self.failed + 1, ..self },
            ItemOutcome::Skipped => BatchState { skipped: self.skipped + 1, ..self },
        }
    }

    /// The state after each of `outcomes` in turn was begun with the flag at
    /// zero and recorded.
    pub open spec fn run(self, outcomes: Seq<ItemOutcome>) -> BatchState
        decreases outcomes.len(),
    {
        if outcomes.len() == 0 {
            self
        } else {
            self.run(outcomes.drop_last()).gate(0).record(outcomes.last())
        }
    }
}

/// What a batch reports at its end.
#[derive(Debug, Clone, Copy, PartialEq, Eq, Structural)]
pub struct BatchReport {
    pub total: u64,
    pub succeeded: u64,
    pub failed: u64,
    pub skipped: u64,
    /// The number of items left unprocessed.
    pub remaining: u64,
    /// Whether the batch was halted by a cancellation request.
    pub cancelled: bool,
    pub input_bytes: u64,
    pub output_bytes: u64,
}

/// A batch in progress.
pub struct BatchRun {
    total: u64,
    started: u64,
    succeeded: u64,
    failed: u64,
    skipped: u64,
    input_bytes: u64,
    output_bytes: u64,
    cancelled: bool,
}

impl View for BatchRun {
    type V = BatchState;

    closed spec fn view(&self) -> BatchState {
        BatchState {
            total: self.total as nat,
            started: self.started as nat,
            succeeded: self.succeeded as nat,
            failed: self.failed as nat,
            skipped: self.skipped as nat,
            input_bytes: self.input_bytes as nat,
            output_bytes: self.output_bytes as nat,
            cancelled: self.cancelled,
        }
    }
}

impl BatchRun {
    /// A batch of `total` items.
    pub fn new(total: u64) -> (run: BatchRun)
        ensures
            run@ == BatchState::new(total as nat),
            run@.wf(),
    {
        BatchRun {
            total,
            started: 0,
            succeeded: 0,
            failed: 0,
            skipped: 0,
            input_bytes: 0,
            output_bytes: 0,
            cancelled: false,
        }
    }

    /// Whether an item has been begun whose outcome is still to be
    /// recorded.
    pub fn is_pending(&self) -> (pending: bool)
        requires
            self@.wf(),
        ensures
            pending == self@.pending(),
    {
        self.started - self.succeeded - self.failed - self.skipped > 0
    }

    /// Looks at the cancellation flag before the next item is begun. A
    /// nonzero flag halts the batch: no further item is handed out, now or
    /// later. Otherwise the next item, if there is one, is begun and its
    /// index returned.
    pub fn next_item(&mut self, cancel_flag: u64) -> (item: Option<u64>)
        requires
            old(self)@.wf(),
            !old(self)@.pending(),
        ensures
            final(self)@ == old(self)@.gate(cancel_flag),
            final(self)@.wf(),
            match item {
                Some(index) => old(self)@.next_item(cancel_flag) == Some(index as nat)
                    && final(self)@.pending(),
                None => old(self)@.next_item(cancel_flag) is None && !final(self)@.pending(),
            },
    {
        if self.cancelled || self.started >= self.total {
            None
        } else if cancel_flag != 0 {
            self.cancelled = true;
            None
        } else {
            let index: u64 = self.started;
            self.started = index + 1;
            Some(index)
        }
    }

    /// Records how the item in flight ended. One item's failure does not
    /// end the batch. Byte totals that do not fit in 64 bits are refused
    /// and leave the batch unchanged.
    pub fn record(&mut self, outcome: ItemOutcome) -> (recorded: Result<(), EngineError>)
        requires
            old(self)@.wf(),
            old(self)@.pending(),
        ensures
            final(self)@.wf(),
            old(self)@.record(outcome).input_bytes <= u64::MAX && old(self)@.record(
                outcome,
            ).output_bytes <= u64::MAX ==> recorded == Ok::<(), EngineError>(()) && final(self)@
                == old(self)@.record(outcome) && !final(self)@.pending(),
            old(self)@.record(outcome).input_bytes > u64::MAX || old(self)@.record(
                outcome,
            ).output_bytes > u64::MAX ==> recorded == Err::<(), EngineError>(
                EngineError::TooLarge,
            ) && final(self)@ == old(self)@,
    {
        match outcome {
            ItemOutcome::Succeeded { input_size, output_size } => {
                let input_bytes: u64 = match self.input_bytes.checked_add(input_size) {
                    Some(sum) => sum,
                    None => {
                        return Err(EngineError::TooLarge);
                    },
                };
                let output_bytes: u64 = match self.output_bytes.checked_add(output_size) {
                    Some(sum) => sum,
                    None => {
                        return Err(EngineError::TooLarge);
                    },
                };
                self.input_bytes = input_bytes;
                self.output_bytes = output_bytes;
                self.succeeded = self.succeeded + 1;
            },
            ItemOutcome::Failed => {
                self.failed = self.failed + 1;
            },
            ItemOutcome::Skipped => {
                self.skipped = self.skipped + 1;
            },
        }
        Ok(())
    }

    /// What the batch has to report: how many items succeeded, failed and
    /// were skipped, how many were left unprocessed, and whether a
    /// cancellation request halted it.
    pub fn report(&self) -> (report: BatchReport)
        requires
            self@.wf(),
        ensures
            report.total == self@.total,
            report.succeeded == self@.succeeded,
            report.failed == self@.failed,
            report.skipped == self@.skipped,
            report.remaining == self@.remaining(),
            report.cancelled == self@.cancelled,
            report.input_bytes == self@.input_bytes,
            report.output_bytes == self@.output_bytes,
    {
        BatchReport {
            total: self.total,
            succeeded: self.succeeded,
            failed: self.failed,
            skipped: self.skipped,
            remaining: self.total - self.started,
            cancelled: self.cancelled,
            input_bytes: self.input_bytes,
            output_bytes: self.output_bytes,
        }
    }
}

/// After `outcomes.len()` items of a batch have gone through with the flag
/// at zero, exactly that many are completed and none is in flight.
pub proof fn lemma_run_completes_items(total: nat, outcomes: Seq<ItemOutcome>)
    requires
        outcomes.len() <= total,
    ensures
        BatchState::new(total).run(outcomes).wf(),
        BatchState::new(total).run(outcomes).total == total,
        BatchState::new(total).run(outcomes).started == outcomes.len(),
        BatchState::new(total).run(outcomes).completed() == outcomes.len(),
        !BatchState::new(total).run(outcomes).cancelled,
    decreases outcomes.len(),
{
    if outcomes.len() > 0 {
        lemma_run_completes_items(total, outcomes.drop_last());
    }
}

/// A cancellation request seen once K of N items are done, with K below N,
/// leaves exactly K items completed: no further item is handed out, the
/// report counts the other N - K as unprocessed, and the batch stays
/// halted whatever the flag shows later.
pub proof fn lemma_cancellation_after_k_items(
    total: nat,
    outcomes: Seq<ItemOutcome>,
    flag: u64,
    later_flag: u64,
)
    requires
        outcomes.len() < total,
        flag != 0,
    ensures
        ({
            let before = BatchState::new(total).run(outcomes);
            let halted = before.gate(flag);
            &&& before.next_item(flag) is None
            &&& halted.cancelled
            &&& halted.completed() == outcomes.len()
            &&& halted.started == outcomes.len()
            &&& halted.remaining() == total - outcomes.len()
            &&& !halted.pending()
            &&& halted.next_item(later_flag) is None
            &&& halted.gate(later_flag) == halted
        }),
{
    lemma_run_completes_items(total, outcomes);
}

/// A batch that is never cancelled processes every item: after N items
/// nothing remains and no further item is handed out.
pub proof fn lemma_uncancelled_batch_completes(total: nat, outcomes: Seq<ItemOutcome>)
    requires
        outcomes.len() == total,
    ensures
        ({
            let end = BatchState::new(total).run(outcomes);
            &&& end.remaining() == 0
            &&& end.completed() == total
            &&& !end.cancelled
            &&& end.next_item(0) is None
        }),
{
    lemma_run_completes_items(total, outcomes);
}

} // verus!
