//! Codec sessions: a compression stream and a decoding stream that take
//! bytes in, hand bytes out and keep the byte counts, without ever touching
//! a file.

use crate::codec::{
    decoder_ended, decoder_finish, decoder_input, decoder_output, decoder_stream_new,
    decoder_take_output, decoder_write, encoder_finish, encoder_input, encoder_output,
    encoder_stream_new,
    encoder_take_output, encoder_write_all, raw_decoder_new, raw_encoder_new,
    raw_encoder_set_parameter, DecoderStream, EncoderParameter, EncoderStream,
};
use crate::error::EngineError;
use crate::policy::{
    buffer_size_for, long_distance_for, parallel_for, should_use_long_distance,
    should_use_parallel, size_policy, LARGE_WINDOW_LOG,
};
use crate::progress::{
    all_handed, non_decreasing, sink_of, ProgressCallback, ProgressTracker,
};
use vstd::prelude::*;

verus! {

/// Sizes reported by every completed compression or decompression.
#[derive(Debug, Clone, Copy, PartialEq, Eq, Structural)]
pub struct CompressionResult {
    pub input_size: u64,
    pub output_size: u64,
}

/// Sizes reported by a completed verification.
#[derive(Debug, Clone, Copy, PartialEq, Eq, Structural)]
pub struct VerifyResult {
    pub compressed_size: u64,
    pub decompressed_size: u64,
}

/// What the caller has found out about a path.
#[derive(Debug, Clone, Copy, PartialEq, Eq, Structural)]
pub struct PathFacts {
    /// Whether anything exists at the path.
    pub exists: bool,
    /// Whether what exists there is a directory.
    pub is_directory: bool,
    /// The length of the file in bytes, or the total length of the regular
    /// files below the directory.
    pub size: u64,
}

/// How one compression is tuned.
#[derive(Debug, Clone, Copy, PartialEq, Eq, Structural)]
pub struct CompressionPlan {
    /// The compression level handed to the encoder.
    pub level: i32,
    /// The size of the chunks the input is read in.
    pub buffer_size: usize,
    /// The worker count handed to the encoder, or `None` for an encoder that
    /// stays on the calling thread.
    pub workers: Option<u32>,
    /// Whether the encoder gets the wide match window and long-distance
    /// matching.
    pub long_distance: bool,
}

/// The tuning of a compression of `size` input bytes at `level`, on a
/// machine with `workers` execution units: the buffer by the size policy,
/// several workers where parallelism is requested or chosen automatically,
/// long-distance matching for large inputs.
pub open spec fn compression_plan(
    size: u64,
    level: i32,
    parallel: bool,
    auto_parallel: bool,
    workers: u32,
) -> CompressionPlan {
    CompressionPlan {
        level,
        buffer_size: buffer_size_for(size),
        workers: if parallel_for(size, auto_parallel, parallel) {
            Some(workers)
        } else {
            None
        },
        long_distance: long_distance_for(size),
    }
}

/// Tunes a compression of `size` input bytes.
pub fn plan_compression(
    size: u64,
    level: i32,
    parallel: bool,
    auto_parallel: bool,
    workers: u32,
) -> (plan: CompressionPlan)
    ensures
        plan == compression_plan(size, level, parallel, auto_parallel, workers),
{
    CompressionPlan {
        level,
        buffer_size: size_policy(size),
        workers: if should_use_parallel(size, auto_parallel, parallel) {
            Some(workers)
        } else {
            None
        },
        long_distance: should_use_long_distance(size),
    }
}

/// The count of bytes handed out after `produced` more bytes, refused where
/// it no longer fits in 64 bits.
pub open spec fn count_after(count: u64, produced: nat) -> Result<u64, EngineError> {
    if count + produced <= u64::MAX {
        Ok((count + produced) as u64)
    } else {
        Err(EngineError::TooLarge)
    }
}

/// Adds the length of a buffer that came out of the codec to a byte count.
pub fn count_output(count: u64, produced: &Vec<u8>) -> (outcome: Result<u64, EngineError>)
    ensures
        outcome == count_after(count, produced@.len()),
{
    match count.checked_add(produced.len() as u64) {
        Some(total) => Ok(total),
        None => Err(EngineError::TooLarge),
    }
}

/// Sets up an encoder as `plan` prescribes: the level first, then the
/// worker count where the plan is parallel, then the wide window and
/// long-distance matching where the plan asks for them.
fn configure_encoder(plan: &CompressionPlan) -> (outcome: Result<EncoderStream, EngineError>)
    ensures
        match outcome {
            Ok(stream) => encoder_input(stream) == Seq::<u8>::empty() && encoder_output(stream)
                == Seq::<u8>::empty(),
            Err(e) => e == EngineError::Codec,
        },
{
    let mut encoder = match raw_encoder_new(plan.level) {
        Ok(encoder) => encoder,
        Err(_) => {
            return Err(EngineError::Codec);
        },
    };
    if let Some(workers) = plan.workers {
        if raw_encoder_set_parameter(&mut encoder, EncoderParameter::Workers(workers)).is_err() {
            return Err(EngineError::Codec);
        }
    }
    if plan.long_distance {
        if raw_encoder_set_parameter(
            &mut encoder,
            EncoderParameter::WindowLog(LARGE_WINDOW_LOG),
        ).is_err() {
            return Err(EngineError::Codec);
        }
        if raw_encoder_set_parameter(
            &mut encoder,
            EncoderParameter::LongDistanceMatching(true),
        ).is_err() {
            return Err(EngineError::Codec);
        }
    }
    Ok(encoder_stream_new(encoder))
}

/// One compression in progress. The caller writes input into it, receives
/// the compressed bytes that are ready, and writes those to the destination.
/// After a failure the stream is of no further use.
pub struct CompressionStream<'a> {
    encoder: EncoderStream,
    plan: CompressionPlan,
    input_size: u64,
    written: u64,
    tracker: ProgressTracker<'a>,
}

impl<'a> CompressionStream<'a> {
    /// How this compression is tuned.
    pub closed spec fn plan(&self) -> CompressionPlan {
        self.plan
    }

    /// The declared size of the input.
    pub closed spec fn input_size(&self) -> u64 {
        self.input_size
    }

    /// The input the encoder has taken in so far, in order.
    pub closed spec fn fed(&self) -> Seq<u8> {
        encoder_input(self.encoder)
    }

    /// The compressed bytes the encoder has given out so far, in order.
    pub closed spec fn emitted(&self) -> Seq<u8> {
        encoder_output(self.encoder)
    }

    /// The count of compressed bytes handed to the caller so far.
    pub closed spec fn bytes_written(&self) -> u64 {
        self.written
    }

    /// The progress units counted so far: input bytes for a single file,
    /// bytes of the files appended for an archive.
    pub closed spec fn processed(&self) -> u64 {
        self.tracker.processed()
    }

    /// Every progress value announced so far, oldest first.
    pub closed spec fn reports(&self) -> Seq<u64> {
        self.tracker.reports()
    }

    /// The sink progress is announced to, if one is installed.
    pub closed spec fn sink(&self) -> Option<ProgressCallback> {
        self.tracker.sink()
    }

    /// The count of bytes written is the length of what the encoder has
    /// given out, and the progress announced so far is consistent with the
    /// count of progress units.
    pub closed spec fn wf(&self) -> bool {
        self.tracker.wf() && self.written == self.emitted().len()
    }

    /// A stream as it is when just opened: tuned by `plan`, nothing taken
    /// in, nothing given out, nothing counted, nothing announced.
    pub open spec fn fresh(
        &self,
        plan: CompressionPlan,
        input_size: u64,
        sink: Option<ProgressCallback>,
    ) -> bool {
        &&& self.wf()
        &&& self.plan() == plan
        &&& self.input_size() == input_size
        &&& self.fed() == Seq::<u8>::empty()
        &&& self.emitted() == Seq::<u8>::empty()
        &&& self.bytes_written() == 0
        &&& self.processed() == 0
        &&& self.reports() == Seq::<u64>::empty()
        &&& self.sink() == sink
    }

    /// Whether `self` is `before` with nothing changed but what the encoder
    /// has taken in and given out and the counts that follow them.
    pub open spec fn continues(&self, before: &Self) -> bool {
        &&& self.wf()
        &&& self.plan() == before.plan()
        &&& self.input_size() == before.input_size()
        &&& self.sink() == before.sink()
    }

    /// Every value announced so far is at most the one after it and has
    /// been handed to the sink, the last one is the count of progress units
    /// itself, and the count of bytes written is the length of what the
    /// encoder has given out.
    pub proof fn lemma_counts_are_consistent(&self)
        requires
            self.wf(),
        ensures
            non_decreasing(self.reports()),
            all_handed(self.sink(), self.reports()),
            self.reports().len() > 0 ==> self.reports().last() == self.processed(),
            self.bytes_written() == self.emitted().len(),
    {
    }

    /// Opens a compression tuned by `plan`.
    pub fn open(plan: CompressionPlan, input_size: u64, callback: Option<&'a ProgressCallback>)
        -> (outcome: Result<Self, EngineError>)
        ensures
            match outcome {
                Ok(stream) => stream.fresh(plan, input_size, sink_of(callback)),
                Err(e) => e == EngineError::Codec,
            },
    {
        match configure_encoder(&plan) {
            Ok(encoder) => Ok(
                CompressionStream {
                    encoder,
                    plan,
                    input_size,
                    written: 0,
                    tracker: ProgressTracker::new(callback),
                },
            ),
            Err(e) => Err(e),
        }
    }

    /// The size of the chunks the input is to be read in.
    pub fn buffer_size(&self) -> (size: usize)
        ensures
            size == self.plan().buffer_size,
    {
        self.plan.buffer_size
    }

    /// The progress units counted so far.
    pub fn total_processed(&self) -> (units: u64)
        ensures
            units == self.processed(),
    {
        self.tracker.total()
    }

    /// The count of compressed bytes handed out so far.
    pub fn total_written(&self) -> (bytes: u64)
        ensures
            bytes == self.bytes_written(),
    {
        self.written
    }

    /// Feeds all of `data` to the encoder and returns the compressed bytes
    /// it has given out. Progress is left as it is.
    pub fn write(&mut self, data: &[u8]) -> (outcome: Result<Vec<u8>, EngineError>)
        requires
            old(self).wf(),
        ensures
            match outcome {
                Ok(bytes) => {
                    &&& final(self).continues(old(self))
                    &&& final(self).fed() == old(self).fed() + data@
                    &&& final(self).emitted() == old(self).emitted() + bytes@
                    &&& final(self).bytes_written() == old(self).bytes_written() + bytes@.len()
                    &&& final(self).processed() == old(self).processed()
                    &&& final(self).reports() == old(self).reports()
                },
                Err(e) => e == EngineError::Codec || e == EngineError::TooLarge,
            },
    {
        if encoder_write_all(&mut self.encoder, data).is_err() {
            return Err(EngineError::Codec);
        }
        let bytes = encoder_take_output(&mut self.encoder);
        match count_output(self.written, &bytes) {
            Ok(written) => {
                self.written = written;
                Ok(bytes)
            },
            Err(e) => Err(e),
        }
    }

    /// Counts `units` of progress and announces the new total. For an
    /// archive this is called with the size of each file once it has been
    /// appended. A total that does not fit in 64 bits is refused and leaves
    /// the stream unchanged.
    pub fn record(&mut self, units: u64) -> (outcome: Result<u64, EngineError>)
        requires
            old(self).wf(),
        ensures
            final(self).continues(old(self)),
            final(self).fed() == old(self).fed(),
            final(self).emitted() == old(self).emitted(),
            final(self).bytes_written() == old(self).bytes_written(),
            old(self).processed() + units <= u64::MAX ==> {
                &&& outcome == Ok::<u64, EngineError>((old(self).processed() + units) as u64)
                &&& final(self).processed() == old(self).processed() + units
                &&& final(self).reports() == old(self).reports().push(final(self).processed())
            },
            old(self).processed() + units > u64::MAX ==> {
                &&& outcome == Err::<u64, EngineError>(EngineError::TooLarge)
                &&& final(self).processed() == old(self).processed()
                &&& final(self).reports() == old(self).reports()
            },
    {
        self.tracker.add(units)
    }

    /// Feeds one chunk of a file to the encoder, announces the bytes read so
    /// far, and returns the compressed bytes the encoder has given out. A
    /// chunk that would take the count of bytes read past 64 bits is refused
    /// before the encoder sees it.
    pub fn write_chunk(&mut self, chunk: &[u8]) -> (outcome: Result<Vec<u8>, EngineError>)
        requires
            old(self).wf(),
        ensures
            match outcome {
                Ok(bytes) => {
                    &&& final(self).continues(old(self))
                    &&& final(self).fed() == old(self).fed() + chunk@
                    &&& final(self).emitted() == old(self).emitted() + bytes@
                    &&& final(self).bytes_written() == old(self).bytes_written() + bytes@.len()
                    &&& final(self).processed() == old(self).processed() + chunk@.len()
                    &&& final(self).reports() == old(self).reports().push(
                        final(self).processed(),
                    )
                },
                Err(e) => e == EngineError::Codec || e == EngineError::TooLarge,
            },
            old(self).processed() + chunk@.len() > u64::MAX ==> outcome == Err::<
                Vec<u8>,
                EngineError,
            >(EngineError::TooLarge) && *final(self) == *old(self),
    {
        let length: u64 = chunk.len() as u64;
        if self.tracker.total().checked_add(length).is_none() {
            return Err(EngineError::TooLarge);
        }
        let bytes = match self.write(chunk) {
            Ok(bytes) => bytes,
            Err(e) => {
                return Err(e);
            },
        };
        match self.tracker.add(length) {
            Ok(_) => Ok(bytes),
            Err(e) => Err(e),
        }
    }

    /// Ends the stream: returns the compressed bytes the encoder still had
    /// to give out, and the sizes of the whole operation, the declared input
    /// size and the length of everything the encoder has given out.
    pub fn finish(self) -> (outcome: Result<(Vec<u8>, CompressionResult), EngineError>)
        requires
            self.wf(),
        ensures
            match outcome {
                Ok((bytes, result)) => {
                    &&& result.input_size == self.input_size()
                    &&& result.output_size == self.emitted().len() + bytes@.len()
                    &&& result.output_size == self.bytes_written() + bytes@.len()
                },
                Err(e) => e == EngineError::Codec || e == EngineError::TooLarge,
            },
    {
        let mut stream = self;
        if encoder_finish(&mut stream.encoder).is_err() {
            return Err(EngineError::Codec);
        }
        let bytes = encoder_take_output(&mut stream.encoder);
        match count_output(stream.written, &bytes) {
            Ok(written) => Ok(
                (bytes, CompressionResult { input_size: stream.input_size, output_size: written }),
            ),
            Err(e) => Err(e),
        }
    }
}

/// What one step of decoding did.
pub struct DecodedStep {
    /// How many bytes of the input the decoder took.
    pub consumed: usize,
    /// The decoded bytes the decoder has given out.
    pub output: Vec<u8>,
}

/// One decoding in progress, shared by decompression, archive extraction
/// and verification. After a failure the stream is of no further use.
pub struct DecodeStream {
    decoder: DecoderStream,
    decoded: u64,
}

impl DecodeStream {
    /// The input the decoder has taken in so far, in order.
    pub closed spec fn fed(&self) -> Seq<u8> {
        decoder_input(self.decoder)
    }

    /// The decoded bytes the decoder has given out so far, in order.
    pub closed spec fn produced(&self) -> Seq<u8> {
        decoder_output(self.decoder)
    }

    /// The count of decoded bytes handed to the caller so far.
    pub closed spec fn decoded(&self) -> u64 {
        self.decoded
    }

    /// Whether the decoding has been ended: the decoder has been asked
    /// whether its input stopped at the end of a frame, has agreed, and
    /// takes no further input.
    pub closed spec fn ended(&self) -> bool {
        decoder_ended(self.decoder)
    }

    /// The count of decoded bytes is the length of what the decoder has
    /// given out.
    pub closed spec fn wf(&self) -> bool {
        self.decoded == self.produced().len()
    }

    /// A stream as it is when just opened: nothing taken in, nothing given
    /// out.
    pub open spec fn fresh(&self) -> bool {
        &&& self.wf()
        &&& self.fed() == Seq::<u8>::empty()
        &&& self.produced() == Seq::<u8>::empty()
        &&& self.decoded() == 0
    }

    /// The count of decoded bytes is the length of what the decoder has
    /// given out.
    pub proof fn lemma_count_is_length(&self)
        requires
            self.wf(),
        ensures
            self.decoded() == self.produced().len(),
    {
    }

    /// Opens a decoding. A decoder that cannot be set up counts as a
    /// corrupt container.
    pub fn open() -> (outcome: Result<Self, EngineError>)
        ensures
            match outcome {
                Ok(stream) => stream.fresh(),
                Err(e) => e == EngineError::InvalidData,
            },
    {
        match raw_decoder_new() {
            Ok(decoder) => Ok(DecodeStream { decoder: decoder_stream_new(decoder), decoded: 0 }),
            Err(_) => Err(EngineError::InvalidData),
        }
    }

    /// The count of decoded bytes handed out so far.
    pub fn total_decoded(&self) -> (bytes: u64)
        ensures
            bytes == self.decoded(),
    {
        self.decoded
    }

    /// Runs the decoder once over `input`: it takes at least one byte of a
    /// non-empty input, from the front, and returns the decoded bytes the
    /// decoder has given out. Any failure of the decoder counts as
    /// corruption.
    pub fn step(&mut self, input: &[u8]) -> (outcome: Result<DecodedStep, EngineError>)
        requires
            old(self).wf(),
        ensures
            match outcome {
                Ok(step) => {
                    &&& final(self).wf()
                    &&& step.consumed <= input@.len()
                    &&& input@.len() > 0 ==> step.consumed > 0
                    &&& final(self).fed() == old(self).fed() + input@.take(step.consumed as int)
                    &&& final(self).produced() == old(self).produced() + step.output@
                    &&& final(self).decoded() == old(self).decoded() + step.output@.len()
                },
                Err(e) => e == EngineError::InvalidData || e == EngineError::TooLarge,
            },
    {
        let consumed: usize = match decoder_write(&mut self.decoder, input) {
            Ok(consumed) => consumed,
            Err(_) => {
                return Err(EngineError::InvalidData);
            },
        };
        let output = decoder_take_output(&mut self.decoder);
        match count_output(self.decoded, &output) {
            Ok(decoded) => {
                self.decoded = decoded;
                Ok(DecodedStep { consumed, output })
            },
            Err(e) => Err(e),
        }
    }

    /// Ends the decoding: asks the decoder whether its input stopped at the
    /// end of a frame and, where it did, leaves the stream ended and returns
    /// the decoded bytes the decoder still had to give out. An input that
    /// stopped inside a frame is corrupt, and the stream is then left as
    /// ended or not as it was.
    pub fn finish(&mut self) -> (outcome: Result<Vec<u8>, EngineError>)
        requires
            old(self).wf(),
        ensures
            match outcome {
                Ok(bytes) => {
                    &&& final(self).wf()
                    &&& final(self).ended()
                    &&& final(self).fed() == old(self).fed()
                    &&& final(self).produced() == old(self).produced() + bytes@
                    &&& final(self).decoded() == old(self).decoded() + bytes@.len()
                },
                Err(e) => {
                    &&& e == EngineError::InvalidData || e == EngineError::TooLarge
                    &&& e == EngineError::InvalidData ==> final(self).ended() == old(self).ended()
                },
            },
    {
        if decoder_finish(&mut self.decoder).is_err() {
            return Err(EngineError::InvalidData);
        }
        let output = decoder_take_output(&mut self.decoder);
        match count_output(self.decoded, &output) {
            Ok(decoded) => {
                self.decoded = decoded;
                Ok(output)
            },
            Err(e) => Err(e),
        }
    }
}

} // verus!
