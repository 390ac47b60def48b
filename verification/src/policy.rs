//! Size policy: how large the I/O buffers are and when the codec runs with
//! several workers, both decided from the size of the input alone.

use vstd::prelude::*;

verus! {

/// Buffer size used for inputs below [`LARGE_FILE_THRESHOLD`] (256 KiB).
pub const BUFFER_SIZE_SMALL: usize = 256 * 1024;

/// Buffer size used for inputs of at least [`LARGE_FILE_THRESHOLD`] (1 MiB).
pub const BUFFER_SIZE_LARGE: usize = 1024 * 1024;

/// Default buffer size for I/O.
pub const BUFFER_SIZE: usize = BUFFER_SIZE_SMALL;

/// Inputs of at least this many bytes count as large (10 MiB).
pub const LARGE_FILE_THRESHOLD: u64 = 10 * 1024 * 1024;

/// Inputs of at least this many bytes are compressed with several workers
/// when automatic parallelism is enabled (1 MiB).
pub const AUTO_PARALLEL_THRESHOLD: u64 = 1024 * 1024;

/// Base-two logarithm of the match window used for large inputs (16 MiB).
pub const LARGE_WINDOW_LOG: u32 = 24;

/// The buffer size for an input of `size` bytes: a step function with its
/// single breakpoint at [`LARGE_FILE_THRESHOLD`], the threshold included in
/// the upper step.
pub open spec fn buffer_size_for(size: u64) -> usize {
    if size >= LARGE_FILE_THRESHOLD {
        BUFFER_SIZE_LARGE
    } else {
        BUFFER_SIZE_SMALL
    }
}

/// Whether an input of `size` bytes is compressed with several workers: an
/// explicit request always wins, otherwise the automatic rule decides by
/// size.
pub open spec fn parallel_for(size: u64, auto_parallel: bool, parallel: bool) -> bool {
    parallel || (auto_parallel && size >= AUTO_PARALLEL_THRESHOLD)
}

/// Whether an input of `size` bytes gets the wide match window and
/// long-distance matching.
pub open spec fn long_distance_for(size: u64) -> bool {
    size >= LARGE_FILE_THRESHOLD
}

/// The worker count the codec is given when the platform reports
/// `available` execution units: that number cut to 32 bits, or 1 when the
/// platform reports nothing.
pub open spec fn workers_for(available: Option<usize>) -> u32 {
    match available {
        Some(n) => (n as int % 0x1_0000_0000) as u32,
        None => 1,
    }
}

/// Selects the I/O buffer size for an input of `size` bytes.
pub fn size_policy(size: u64) -> (buffer: usize)
    ensures
        buffer == buffer_size_for(size),
{
    if size >= LARGE_FILE_THRESHOLD {
        BUFFER_SIZE_LARGE
    } else {
        BUFFER_SIZE_SMALL
    }
}

/// Decides whether the codec runs with several workers.
pub fn should_use_parallel(size: u64, auto_parallel: bool, parallel: bool) -> (decision: bool)
    ensures
        decision == parallel_for(size, auto_parallel, parallel),
{
    parallel || (auto_parallel && size >= AUTO_PARALLEL_THRESHOLD)
}

/// Decides whether the encoder is tuned for long-distance matches.
pub fn should_use_long_distance(size: u64) -> (decision: bool)
    ensures
        decision == long_distance_for(size),
{
    size >= LARGE_FILE_THRESHOLD
}

/// The number of workers to hand to the codec, given what the platform
/// reports as its available parallelism.
pub fn num_cpus(available: Option<usize>) -> (workers: u32)
    ensures
        workers == workers_for(available),
        available is None ==> workers == 1,
        available matches Some(n) ==> (n <= u32::MAX ==> workers == n),
{
    match available {
        Some(n) => ((n as u64) % 0x1_0000_0000) as u32,
        None => 1,
    }
}

/// The buffer size never shrinks as the input grows, and takes only the two
/// configured values.
pub proof fn lemma_size_policy_is_monotone_step(smaller: u64, larger: u64)
    requires
        smaller <= larger,
    ensures
        buffer_size_for(smaller) <= buffer_size_for(larger),
        buffer_size_for(smaller) == BUFFER_SIZE_SMALL || buffer_size_for(smaller)
            == BUFFER_SIZE_LARGE,
        buffer_size_for(smaller) != buffer_size_for(larger) ==> smaller < LARGE_FILE_THRESHOLD
            <= larger,
{
}

/// Once an input is compressed in parallel, every larger input is too, and an
/// explicit request makes the size irrelevant.
pub proof fn lemma_parallel_is_monotone(
    smaller: u64,
    larger: u64,
    auto_parallel: bool,
    parallel: bool,
)
    requires
        smaller <= larger,
    ensures
        parallel_for(smaller, auto_parallel, parallel) ==> parallel_for(
            larger,
            auto_parallel,
            parallel,
        ),
        parallel_for(smaller, auto_parallel, true),
        parallel_for(smaller, false, parallel) == parallel,
{
}

} // verus!
