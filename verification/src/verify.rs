//! Integrity verification: a container is decoded to the end and the
//! decoded bytes are discarded, so that corruption shows without anything
//! being written.

use crate::decompress::FileDecompression;
use crate::error::{fails_with, EngineError};
use crate::naming::{has_zst_extension, is_compressed_name};
use crate::progress::{
    all_handed, extends, non_decreasing, reports_after, sink_of, ProgressCallback,
};
use crate::stream::{PathFacts, VerifyResult};
use vstd::prelude::*;
use vstd::slice::slice_subrange;

verus! {

/// The verification of one container in progress. The caller feeds it the
/// container chunk by chunk; nothing comes back but the verdict. After a
/// failure the verification is of no further use.
pub struct Verification<'a> {
    session: FileDecompression<'a>,
}

impl<'a> Verification<'a> {
    /// The size of the compressed input.
    pub closed spec fn input_size(&self) -> u64 {
        self.session.input_size()
    }

    /// The part of the container the decoder has taken in so far.
    pub closed spec fn fed(&self) -> Seq<u8> {
        self.session.fed()
    }

    /// The decoded bytes the decoder has given out so far, all discarded.
    pub closed spec fn produced(&self) -> Seq<u8> {
        self.session.produced()
    }

    /// The count of decoded bytes so far.
    pub closed spec fn decoded(&self) -> u64 {
        self.session.decoded()
    }

    /// The decoded count at the time of the last estimated report.
    pub closed spec fn last_update(&self) -> u64 {
        self.session.last_update()
    }

    /// Every progress value announced so far, oldest first.
    pub closed spec fn reports(&self) -> Seq<u64> {
        self.session.reports()
    }

    /// Whether the verification has been finished.
    pub closed spec fn completed(&self) -> bool {
        self.session.completed()
    }

    /// The sink progress is announced to, if one is installed.
    pub closed spec fn sink(&self) -> Option<ProgressCallback> {
        self.session.sink()
    }

    /// The count of decoded bytes is the length of what the decoder has
    /// given out, and the progress announced so far is consistent.
    pub closed spec fn wf(&self) -> bool {
        self.session.wf()
    }

    /// A verification as it is when just opened.
    pub open spec fn fresh(&self, input_size: u64, sink: Option<ProgressCallback>) -> bool {
        &&& self.wf()
        &&& !self.completed()
        &&& self.input_size() == input_size
        &&& self.fed() == Seq::<u8>::empty()
        &&& self.produced() == Seq::<u8>::empty()
        &&& self.decoded() == 0
        &&& self.last_update() == 0
        &&& self.reports() == Seq::<u64>::empty()
        &&& self.sink() == sink
    }

    /// Whether `self` is `before` with nothing changed but what the decoder
    /// has taken in and given out and what follows from it.
    pub open spec fn continues(&self, before: &Self) -> bool {
        &&& self.wf()
        &&& self.input_size() == before.input_size()
        &&& self.sink() == before.sink()
    }

    /// Opens the verification of a container of `input_size` bytes. A
    /// decoder that cannot be set up counts as a corrupt container.
    pub fn open(input_size: u64, callback: Option<&'a ProgressCallback>) -> (outcome: Result<
        Self,
        EngineError,
    >)
        ensures
            match outcome {
                Ok(verification) => verification.fresh(input_size, sink_of(callback)),
                Err(e) => e == EngineError::InvalidData,
            },
    {
        match FileDecompression::open(input_size, callback) {
            Ok(session) => Ok(Verification { session }),
            Err(e) => Err(e),
        }
    }

    /// The count of decoded bytes so far.
    pub fn total_decoded(&self) -> (bytes: u64)
        ensures
            bytes == self.decoded(),
    {
        self.session.total_decoded()
    }

    /// Every value announced so far is at most the one after it and at most
    /// the size of the compressed input; the last one of a finished
    /// verification is that size; and the count of decoded bytes is the
    /// length of what the decoder has given out.
    pub proof fn lemma_counts_are_consistent(&self)
        requires
            self.wf(),
        ensures
            non_decreasing(self.reports()),
            all_handed(self.sink(), self.reports()),
            forall|i: int|
                0 <= i < self.reports().len() ==> #[trigger] self.reports()[i]
                    <= self.input_size(),
            self.completed() ==> self.reports().len() > 0 && self.reports().last()
                == self.input_size(),
            self.decoded() == self.produced().len(),
    {
        self.session.lemma_counts_are_consistent();
    }

    /// Decodes one chunk of the container to its end and discards what
    /// comes out, counting the decoded bytes and announcing the estimated
    /// progress as it becomes due. Where it succeeds, the decoder has taken
    /// in the whole chunk. Any failure of the decoder is corruption.
    pub fn feed(&mut self, chunk: &[u8]) -> (outcome: Result<(), EngineError>)
        requires
            old(self).wf(),
            !old(self).completed(),
        ensures
            match outcome {
                Ok(_) => {
                    &&& final(self).continues(old(self))
                    &&& !final(self).completed()
                    &&& final(self).fed() == old(self).fed() + chunk@
                    &&& extends(final(self).produced(), old(self).produced())
                    &&& final(self).decoded() == final(self).produced().len()
                    &&& extends(final(self).reports(), old(self).reports())
                },
                Err(e) => e == EngineError::InvalidData || e == EngineError::TooLarge,
            },
    {
        let mut offset: usize = 0;
        proof {
            assert(old(self).fed() + chunk@.take(0) =~= old(self).fed());
        }
        while offset < chunk.len()
            invariant
                offset <= chunk@.len(),
                self.continues(old(self)),
                !self.completed(),
                extends(self.produced(), old(self).produced()),
                extends(self.reports(), old(self).reports()),
                self.fed() == old(self).fed() + chunk@.take(offset as int),
            decreases chunk@.len() - offset,
        {
            let rest = slice_subrange(chunk, offset, chunk.len());
            let ghost before = self.reports();
            let ghost given = self.produced();
            match self.session.step(rest) {
                Ok(step) => {
                    proof {
                        assert(extends(self.reports(), before));
                        assert(extends(self.produced(), given));
                        assert(chunk@.take(offset as int) + rest@.take(step.consumed as int)
                            =~= chunk@.take(offset + step.consumed));
                    }
                    offset = offset + step.consumed;
                },
                Err(e) => {
                    return Err(e);
                },
            }
        }
        proof {
            assert(chunk@.take(offset as int) =~= chunk@);
            self.session.lemma_counts_are_consistent();
        }
        Ok(())
    }

    /// Ends the verification: the container is sound if its input stopped
    /// exactly at the end of a frame. Returns the compressed size and the
    /// length of everything the decoder has given out, and announces the
    /// compressed size as the last progress value.
    pub fn finish(&mut self) -> (outcome: Result<VerifyResult, EngineError>)
        requires
            old(self).wf(),
            !old(self).completed(),
        ensures
            match outcome {
                Ok(result) => {
                    &&& final(self).continues(old(self))
                    &&& final(self).completed()
                    &&& final(self).fed() == old(self).fed()
                    &&& extends(final(self).produced(), old(self).produced())
                    &&& result.compressed_size == old(self).input_size()
                    &&& result.decompressed_size == final(self).decoded()
                    &&& result.decompressed_size == final(self).produced().len()
                    &&& final(self).reports() == reports_after(
                        old(self).reports(),
                        old(self).last_update(),
                        final(self).decoded(),
                        old(self).input_size(),
                    ).push(old(self).input_size())
                },
                Err(e) => e == EngineError::InvalidData || e == EngineError::TooLarge,
            },
    {
        match self.session.finish() {
            Ok((_, result)) => Ok(
                VerifyResult {
                    compressed_size: result.input_size,
                    decompressed_size: result.output_size,
                },
            ),
            Err(e) => Err(e),
        }
    }
}

/// Why the verification of the container called `name` is refused, if it
/// is: the name is no container's, which is decided before anything is
/// read, or the source is missing.
pub open spec fn verify_refusal(name: Seq<char>, source: PathFacts) -> Option<EngineError> {
    if !has_zst_extension(name) {
        Some(EngineError::InvalidInput)
    } else if !source.exists {
        Some(EngineError::NotFound)
    } else {
        None
    }
}

/// Whether `outcome` is what the opening of a verification owes: the
/// refusal where there is one, and otherwise a fresh verification, unless
/// the decoder could not be set up.
pub open spec fn opens_verification(
    outcome: Result<Verification<'_>, EngineError>,
    name: Seq<char>,
    source: PathFacts,
    sink: Option<ProgressCallback>,
) -> bool {
    match verify_refusal(name, source) {
        Some(error) => fails_with(outcome, error),
        None => match outcome {
            Ok(verification) => verification.fresh(source.size, sink),
            Err(e) => e == EngineError::InvalidData,
        },
    }
}

/// Decides whether the container called `name` may be verified.
pub fn check_verify(name: &str, source: &PathFacts) -> (refusal: Option<EngineError>)
    ensures
        refusal == verify_refusal(name@, *source),
{
    if !is_compressed_name(name) {
        Some(EngineError::InvalidInput)
    } else if !source.exists {
        Some(EngineError::NotFound)
    } else {
        None
    }
}

/// Begins the verification of the container called `name`, a single file
/// or an archive alike: only the compression layer is exercised. The
/// caller feeds the container to [`Verification::feed`] in chunks and ends
/// with [`Verification::finish`].
pub fn verify_zst<'a>(
    name: &str,
    source: &PathFacts,
    progress_callback: Option<&'a ProgressCallback>,
) -> (outcome: Result<Verification<'a>, EngineError>)
    ensures
        opens_verification(outcome, name@, *source, sink_of(progress_callback)),
{
    match check_verify(name, source) {
        Some(error) => Err(error),
        None => Verification::open(source.size, progress_callback),
    }
}

/// Begins the verification of the container called `name` without a
/// progress sink.
pub fn verify_zst_simple(name: &str, source: &PathFacts) -> (outcome: Result<
    Verification<'static>,
    EngineError,
>)
    ensures
        opens_verification(outcome, name@, *source, None),
{
    verify_zst(name, source, None)
}

} // verus!
