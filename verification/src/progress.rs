//! Progress relay: the sink a caller installs and the two counters that feed
//! it, one cumulative and one throttled.

use crate::error::EngineError;
use vstd::prelude::*;

verus! {

/// Decoded bytes that must accumulate between two estimated reports (1 MiB).
pub const PROGRESS_INTERVAL: u64 = 1024 * 1024;

/// Assumed ratio of decoded to compressed size behind the estimate.
pub const ASSUMED_RATIO: u64 = 3;

trait ProgressSink: Send + Sync {
    spec fn promised(&self, units: u64) -> bool;

    fn report(&self, units: u64)
        ensures
            self.promised(units),
    ;
}

struct CallbackSink<F: Fn(u64)> {
    callback: F,
}

impl<F: Fn(u64)> CallbackSink<F> {
    #[verifier::type_invariant]
    spec fn accepts_every_value(&self) -> bool {
        forall|units: u64| call_requires(self.callback, (units,))
    }
}

impl<F: Fn(u64) + Send + Sync> ProgressSink for CallbackSink<F> {
    closed spec fn promised(&self, units: u64) -> bool {
        call_ensures(self.callback, (units,), ())
    }

    fn report(&self, units: u64) {
        proof {
            use_type_invariant(self);
        }
        (self.callback)(units);
    }
}

/// A caller-owned sink for progress units, invoked by the engine.
pub struct ProgressCallback {
    sink: Box<dyn ProgressSink>,
}

impl ProgressCallback {
    /// What the sink promises of a call with `units`. The engine learns
    /// that it holds only by making the call.
    pub closed spec fn delivered(&self, units: u64) -> bool {
        self.sink.promised(units)
    }

    /// Wraps a closure that accepts every progress value.
    pub fn new<F>(callback: F) -> (sink: ProgressCallback) where
        F: Fn(u64) + Send + Sync + 'static,

        requires
            forall|units: u64| call_requires(callback, (units,)),
        ensures
            forall|units: u64| sink.delivered(units) == call_ensures(callback, (units,), ()),
    {
        ProgressCallback { sink: Box::new(CallbackSink { callback }) }
    }

    /// Hands one progress value to the sink.
    pub fn call(&self, units: u64)
        ensures
            self.delivered(units),
    {
        self.sink.report(units);
    }
}

/// The sink behind a reference, if there is one.
pub open spec fn sink_of(callback: Option<&ProgressCallback>) -> Option<ProgressCallback> {
    match callback {
        Some(sink) => Some(*sink),
        None => None,
    }
}

/// Whether `units` has been handed to the sink, where one is installed.
pub open spec fn handed(sink: Option<ProgressCallback>, units: u64) -> bool {
    sink matches Some(callback) ==> callback.delivered(units)
}

/// Whether every value of `reports` has been handed to the sink, where one
/// is installed.
pub open spec fn all_handed(sink: Option<ProgressCallback>, reports: Seq<u64>) -> bool {
    forall|i: int| 0 <= i < reports.len() ==> handed(sink, #[trigger] reports[i])
}

/// Whether each value of `reports` is at least the one before it.
pub open spec fn non_decreasing(reports: Seq<u64>) -> bool {
    forall|i: int, j: int| 0 <= i <= j < reports.len() ==> reports[i] <= reports[j]
}

/// Cumulative progress: bytes read, bytes archived or files extracted so
/// far, announced after every addition.
pub struct ProgressTracker<'a> {
    callback: Option<&'a ProgressCallback>,
    processed: u64,
    reports: Ghost<Seq<u64>>,
}

impl<'a> ProgressTracker<'a> {
    /// The units counted so far.
    pub closed spec fn processed(&self) -> u64 {
        self.processed
    }

    /// Every value announced so far, oldest first.
    pub closed spec fn reports(&self) -> Seq<u64> {
        self.reports@
    }

    /// The sink the values are announced to, if one is installed.
    pub closed spec fn sink(&self) -> Option<ProgressCallback> {
        sink_of(self.callback)
    }

    /// The announced values never decrease, end at the current count, and
    /// have all been handed to the sink.
    pub open spec fn wf(&self) -> bool {
        &&& non_decreasing(self.reports())
        &&& self.reports().len() > 0 ==> self.reports().last() == self.processed()
        &&& self.reports().len() == 0 ==> self.processed() == 0
        &&& all_handed(self.sink(), self.reports())
    }

    /// Starts counting at zero.
    pub fn new(callback: Option<&'a ProgressCallback>) -> (tracker: Self)
        ensures
            tracker.wf(),
            tracker.processed() == 0,
            tracker.reports() == Seq::<u64>::empty(),
            tracker.sink() == sink_of(callback),
    {
        ProgressTracker { callback, processed: 0, reports: Ghost(Seq::empty()) }
    }

    /// The units counted so far.
    pub fn total(&self) -> (units: u64)
        ensures
            units == self.processed(),
    {
        self.processed
    }

    /// Adds `units` to the count and announces the new total to the sink.
    /// A total that does not fit in 64 bits is refused and leaves the
    /// tracker unchanged.
    pub fn add(&mut self, units: u64) -> (outcome: Result<u64, EngineError>)
        requires
            old(self).wf(),
        ensures
            final(self).wf(),
            final(self).sink() == old(self).sink(),
            old(self).processed() + units <= u64::MAX ==> {
                &&& outcome == Ok::<u64, EngineError>((old(self).processed() + units) as u64)
                &&& final(self).processed() == old(self).processed() + units
                &&& final(self).reports() == old(self).reports().push(final(self).processed())
            },
            old(self).processed() + units > u64::MAX ==> {
                &&& outcome == Err::<u64, EngineError>(EngineError::TooLarge)
                &&& final(self).processed() == old(self).processed()
                &&& final(self).reports() == old(self).reports()
            },
    {
        match self.processed.checked_add(units) {
            Some(total) => {
                self.processed = total;
                self.reports = Ghost(self.reports@.push(total));
                if let Some(callback) = self.callback {
                    callback.call(total);
                }
                Ok(total)
            },
            None => Err(EngineError::TooLarge),
        }
    }
}

/// The progress estimate after `decoded` bytes have come out of a container
/// of `input_size` compressed bytes: a third of the decoded bytes, never more
/// than the compressed size.
pub open spec fn estimated_progress(decoded: u64, input_size: u64) -> u64 {
    if decoded / ASSUMED_RATIO <= input_size {
        decoded / ASSUMED_RATIO
    } else {
        input_size
    }
}

/// The estimate that is due once `decoded` bytes have been decoded, the last
/// estimate having been made at `last_update` bytes: none before
/// [`PROGRESS_INTERVAL`] more bytes have accumulated.
pub open spec fn report_due(last_update: u64, decoded: u64, input_size: u64) -> Option<u64> {
    if decoded - last_update >= PROGRESS_INTERVAL {
        Some(estimated_progress(decoded, input_size))
    } else {
        None
    }
}

/// The decoded count of the last estimate, once `decoded` bytes have been
/// decoded.
pub open spec fn last_update_after(last_update: u64, decoded: u64) -> u64 {
    if decoded - last_update >= PROGRESS_INTERVAL {
        decoded
    } else {
        last_update
    }
}

/// The announced values, once `decoded` bytes have been decoded.
pub open spec fn reports_after(
    reports: Seq<u64>,
    last_update: u64,
    decoded: u64,
    input_size: u64,
) -> Seq<u64> {
    match report_due(last_update, decoded, input_size) {
        Some(estimate) => reports.push(estimate),
        None => reports,
    }
}

/// Whether `earlier` is the beginning of `later`.
pub open spec fn extends<T>(later: Seq<T>, earlier: Seq<T>) -> bool {
    earlier.len() <= later.len() && later.take(earlier.len() as int) =~= earlier
}

/// Throttled progress for decoding, where the decoded size is not known in
/// advance: an estimate is announced once at least [`PROGRESS_INTERVAL`]
/// decoded bytes have accumulated since the last one, and the exact
/// compressed size is announced on completion.
pub struct DecodeProgress<'a> {
    callback: Option<&'a ProgressCallback>,
    input_size: u64,
    decoded: u64,
    last_update: u64,
    completed: bool,
    reports: Ghost<Seq<u64>>,
}

impl<'a> DecodeProgress<'a> {
    /// The compressed size of the container being decoded.
    pub closed spec fn input_size(&self) -> u64 {
        self.input_size
    }

    /// The decoded bytes counted so far.
    pub closed spec fn decoded(&self) -> u64 {
        self.decoded
    }

    /// The decoded count at the time of the last estimated report.
    pub closed spec fn last_update(&self) -> u64 {
        self.last_update
    }

    /// Whether the completion report has been made.
    pub closed spec fn completed(&self) -> bool {
        self.completed
    }

    /// Every value announced so far, oldest first.
    pub closed spec fn reports(&self) -> Seq<u64> {
        self.reports@
    }

    /// The sink the values are announced to, if one is installed.
    pub closed spec fn sink(&self) -> Option<ProgressCallback> {
        sink_of(self.callback)
    }

    /// The announced values never decrease, none exceeds the compressed size,
    /// after completion the last one is the compressed size itself, and all
    /// of them have been handed to the sink.
    pub open spec fn wf(&self) -> bool {
        &&& self.last_update() <= self.decoded()
        &&& all_handed(self.sink(), self.reports())
        &&& non_decreasing(self.reports())
        &&& forall|i: int|
            0 <= i < self.reports().len() ==> #[trigger] self.reports()[i] <= self.input_size()
        &&& !self.completed() && self.reports().len() > 0 ==> self.reports().last()
            == estimated_progress(self.last_update(), self.input_size())
        &&& self.completed() ==> self.reports().len() > 0 && self.reports().last()
            == self.input_size()
    }

    /// Starts with nothing decoded and nothing announced.
    pub fn new(callback: Option<&'a ProgressCallback>, input_size: u64) -> (progress: Self)
        ensures
            progress.wf(),
            progress.input_size() == input_size,
            progress.decoded() == 0,
            progress.last_update() == 0,
            !progress.completed(),
            progress.reports() == Seq::<u64>::empty(),
            progress.sink() == sink_of(callback),
    {
        DecodeProgress {
            callback,
            input_size,
            decoded: 0,
            last_update: 0,
            completed: false,
            reports: Ghost(Seq::empty()),
        }
    }

    /// The decoded bytes counted so far.
    pub fn total(&self) -> (bytes: u64)
        ensures
            bytes == self.decoded(),
    {
        self.decoded
    }

    /// The compressed size of the container being decoded.
    pub fn compressed_size(&self) -> (bytes: u64)
        ensures
            bytes == self.input_size(),
    {
        self.input_size
    }

    /// Counts `bytes` more decoded bytes. When at least
    /// [`PROGRESS_INTERVAL`] bytes have accumulated since the last estimate,
    /// announces and returns a new one. A count that does not fit in 64 bits
    /// is refused and leaves the state unchanged.
    pub fn record(&mut self, bytes: u64) -> (outcome: Result<Option<u64>, EngineError>)
        requires
            old(self).wf(),
            !old(self).completed(),
        ensures
            final(self).wf(),
            !final(self).completed(),
            final(self).input_size() == old(self).input_size(),
            final(self).sink() == old(self).sink(),
            old(self).decoded() + bytes > u64::MAX ==> {
                &&& outcome == Err::<Option<u64>, EngineError>(EngineError::TooLarge)
                &&& final(self).decoded() == old(self).decoded()
                &&& final(self).last_update() == old(self).last_update()
                &&& final(self).reports() == old(self).reports()
            },
            old(self).decoded() + bytes <= u64::MAX ==> {
                &&& final(self).decoded() == old(self).decoded() + bytes
                &&& outcome == Ok::<Option<u64>, EngineError>(
                    report_due(
                        old(self).last_update(),
                        final(self).decoded(),
                        old(self).input_size(),
                    ),
                )
                &&& final(self).last_update() == last_update_after(
                    old(self).last_update(),
                    final(self).decoded(),
                )
                &&& final(self).reports() == reports_after(
                    old(self).reports(),
                    old(self).last_update(),
                    final(self).decoded(),
                    old(self).input_size(),
                )
            },
    {
        match self.decoded.checked_add(bytes) {
            Some(decoded) => {
                self.decoded = decoded;
                if decoded - self.last_update >= PROGRESS_INTERVAL {
                    let third: u64 = decoded / ASSUMED_RATIO;
                    let estimate: u64 = if third <= self.input_size {
                        third
                    } else {
                        self.input_size
                    };
                    proof {
                        lemma_estimate_is_monotone(self.last_update, decoded, self.input_size);
                    }
                    self.last_update = decoded;
                    self.reports = Ghost(self.reports@.push(estimate));
                    if let Some(callback) = self.callback {
                        callback.call(estimate);
                    }
                    Ok(Some(estimate))
                } else {
                    Ok(None)
                }
            },
            None => Err(EngineError::TooLarge),
        }
    }

    /// Announces completion with the exact compressed size, so that an
    /// indicator scaled to that size reaches its end.
    pub fn finish(&mut self) -> (last: u64)
        requires
            old(self).wf(),
            !old(self).completed(),
        ensures
            final(self).wf(),
            final(self).completed(),
            last == old(self).input_size(),
            final(self).input_size() == old(self).input_size(),
            final(self).decoded() == old(self).decoded(),
            final(self).last_update() == old(self).last_update(),
            final(self).sink() == old(self).sink(),
            final(self).reports() == old(self).reports().push(last),
    {
        let last: u64 = self.input_size;
        self.completed = true;
        self.reports = Ghost(self.reports@.push(last));
        if let Some(callback) = self.callback {
            callback.call(last);
        }
        last
    }
}

/// The estimate never decreases as more bytes are decoded, and never exceeds
/// the compressed size.
pub proof fn lemma_estimate_is_monotone(earlier: u64, later: u64, input_size: u64)
    requires
        earlier <= later,
    ensures
        estimated_progress(earlier, input_size) <= estimated_progress(later, input_size),
        estimated_progress(later, input_size) <= input_size,
{
}

} // verus!
