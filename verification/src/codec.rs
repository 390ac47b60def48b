//! The boundary to the Zstandard codec.
//!
//! Everything in this module is trusted rather than proved: the declarations
//! make the codec's types known to the verifier, and each wrapper makes one
//! call into the codec. The streams are the codec's push-style writers over an
//! in-memory sink, so that no call here touches a file.

use std::io::Write;
use vstd::prelude::*;

verus! {

/// `zstd::stream::zio::Writer`, the push-style adapter that runs an encoder
/// or decoder over written bytes and forwards what comes out to a sink.
#[verifier::external_type_specification]
#[verifier::external_body]
#[verifier::reject_recursive_types(W)]
#[verifier::reject_recursive_types(D)]
pub struct ExZioWriter<W, D>(zstd::stream::zio::Writer<W, D>);

/// `zstd::stream::raw::Encoder`, an in-memory compression context.
#[verifier::external_type_specification]
#[verifier::external_body]
pub struct ExRawEncoder<'a>(zstd::stream::raw::Encoder<'a>);

/// `zstd::stream::raw::Decoder`, an in-memory decompression context.
#[verifier::external_type_specification]
#[verifier::external_body]
pub struct ExRawDecoder<'a>(zstd::stream::raw::Decoder<'a>);

/// `std::io::Error`, the error the codec reports.
#[verifier::external_type_specification]
#[verifier::external_body]
pub struct ExIoError(std::io::Error);

/// An encoder that collects its compressed output in memory.
pub type EncoderStream = zstd::stream::zio::Writer<Vec<u8>, zstd::stream::raw::Encoder<'static>>;

/// A decoder that collects its decoded output in memory.
pub type DecoderStream = zstd::stream::zio::Writer<Vec<u8>, zstd::stream::raw::Decoder<'static>>;

/// The input an encoder stream has taken in since it was made, in the
/// order in which it was written.
pub uninterp spec fn encoder_input(stream: EncoderStream) -> Seq<u8>;

/// The compressed bytes that have been moved out of an encoder stream's
/// sink since the stream was made, in the order in which they came out.
pub uninterp spec fn encoder_output(stream: EncoderStream) -> Seq<u8>;

/// The input a decoder stream has taken in since it was made, in the order
/// in which it was written.
pub uninterp spec fn decoder_input(stream: DecoderStream) -> Seq<u8>;

/// The decoded bytes that have been moved out of a decoder stream's sink
/// since the stream was made, in the order in which they came out.
pub uninterp spec fn decoder_output(stream: DecoderStream) -> Seq<u8>;

/// Whether a decoder stream has been ended: the stream records that it was
/// finished, and from then on refuses every write.
pub uninterp spec fn decoder_ended(stream: DecoderStream) -> bool;

/// The encoder parameters the engine sets.
#[derive(Debug, Clone, Copy, PartialEq, Eq, Structural)]
pub enum EncoderParameter {
    /// Number of worker threads; zero keeps the encoder single-threaded.
    Workers(u32),
    /// Base-two logarithm of the largest back-reference distance.
    WindowLog(u32),
    /// Whether long-distance matching is on.
    LongDistanceMatching(bool),
}

/// Calls `zstd::stream::raw::Encoder::new`. The codec may refuse the level
/// or fail to allocate, so nothing is claimed of the outcome.
#[verifier::external_body]
pub(crate) fn raw_encoder_new(level: i32) -> (outcome: Result<
    zstd::stream::raw::Encoder<'static>,
    std::io::Error,
>) {
    zstd::stream::raw::Encoder::new(level)
}

/// Calls `zstd::stream::raw::Encoder::set_parameter`. The codec may clamp or
/// refuse the value, so nothing is claimed of the outcome.
#[verifier::external_body]
pub(crate) fn raw_encoder_set_parameter(
    encoder: &mut zstd::stream::raw::Encoder<'static>,
    parameter: EncoderParameter,
) -> (outcome: Result<(), std::io::Error>) {
    encoder.set_parameter(
        match parameter {
            EncoderParameter::Workers(n) => zstd::stream::raw::CParameter::NbWorkers(n),
            EncoderParameter::WindowLog(n) => zstd::stream::raw::CParameter::WindowLog(n),
            EncoderParameter::LongDistanceMatching(on) => {
                zstd::stream::raw::CParameter::EnableLongDistanceMatching(on)
            },
        },
    )
}

/// Calls `zstd::stream::zio::Writer::new` with an encoder and an empty
/// in-memory sink. The new stream has taken nothing in and nothing has
/// been moved out of it.
#[verifier::external_body]
pub(crate) fn encoder_stream_new(encoder: zstd::stream::raw::Encoder<'static>) -> (stream:
    EncoderStream)
    ensures
        encoder_input(stream) == Seq::<u8>::empty(),
        encoder_output(stream) == Seq::<u8>::empty(),
{
    zstd::stream::zio::Writer::new(Vec::new(), encoder)
}

/// Calls `write_all` on the encoder stream. Where it succeeds, the stream
/// has taken in all of `data` behind what it had taken in before; where
/// the codec fails, nothing is claimed of its input. Nothing is moved out
/// of the sink.
#[verifier::external_body]
pub(crate) fn encoder_write_all(stream: &mut EncoderStream, data: &[u8]) -> (outcome: Result<
    (),
    std::io::Error,
>)
    ensures
        outcome is Ok ==> encoder_input(*final(stream)) == encoder_input(*old(stream)) + data@,
        encoder_output(*final(stream)) == encoder_output(*old(stream)),
{
    stream.write_all(data)
}

/// Calls `zstd::stream::zio::Writer::finish` on the encoder stream, which
/// ends the frame and moves everything still buffered into the sink. It
/// takes no input and moves nothing out of the sink.
#[verifier::external_body]
pub(crate) fn encoder_finish(stream: &mut EncoderStream) -> (outcome: Result<(), std::io::Error>)
    ensures
        encoder_input(*final(stream)) == encoder_input(*old(stream)),
        encoder_output(*final(stream)) == encoder_output(*old(stream)),
{
    stream.finish()
}

/// Calls `zstd::stream::zio::Writer::writer_mut` on the encoder stream and
/// moves the compressed bytes collected so far out of the sink: they are
/// what is returned. It takes no input.
#[verifier::external_body]
pub(crate) fn encoder_take_output(stream: &mut EncoderStream) -> (bytes: Vec<u8>)
    ensures
        encoder_input(*final(stream)) == encoder_input(*old(stream)),
        encoder_output(*final(stream)) == encoder_output(*old(stream)) + bytes@,
{
    std::mem::take(stream.writer_mut())
}

/// Calls `zstd::stream::raw::Decoder::new`. Nothing is claimed of the
/// outcome.
#[verifier::external_body]
pub(crate) fn raw_decoder_new() -> (outcome: Result<
    zstd::stream::raw::Decoder<'static>,
    std::io::Error,
>) {
    zstd::stream::raw::Decoder::new()
}

/// Calls `zstd::stream::zio::Writer::new` with a decoder and an empty
/// in-memory sink. The new stream has taken nothing in, nothing has been
/// moved out of it, and it has not been ended.
#[verifier::external_body]
pub(crate) fn decoder_stream_new(decoder: zstd::stream::raw::Decoder<'static>) -> (stream:
    DecoderStream)
    ensures
        decoder_input(stream) == Seq::<u8>::empty(),
        decoder_output(stream) == Seq::<u8>::empty(),
        !decoder_ended(stream),
{
    zstd::stream::zio::Writer::new(Vec::new(), decoder)
}

/// Calls `write` on the decoder stream. The stream keeps running the decoder
/// until it has taken at least one byte, so a successful call on non-empty
/// `data` takes in between one byte and all of them, from the front; where
/// the codec fails, nothing is claimed of its input. Nothing is moved out
/// of the sink. A stream that has been ended refuses the call, and no call
/// ends a stream or revives one.
#[verifier::external_body]
pub(crate) fn decoder_write(stream: &mut DecoderStream, data: &[u8]) -> (outcome: Result<
    usize,
    std::io::Error,
>)
    ensures
        outcome matches Ok(consumed) ==> {
            &&& consumed <= data@.len()
            &&& data@.len() > 0 ==> consumed > 0
            &&& decoder_input(*final(stream)) == decoder_input(*old(stream)) + data@.take(
                consumed as int,
            )
        },
        decoder_output(*final(stream)) == decoder_output(*old(stream)),
        decoder_ended(*final(stream)) == decoder_ended(*old(stream)),
        outcome is Ok ==> !decoder_ended(*old(stream)),
{
    stream.write(data)
}

/// Calls `zstd::stream::zio::Writer::finish` on the decoder stream, which
/// fails where the input did not end with the end of a frame. It returns
/// successfully only once the stream has recorded that it is finished, and
/// a failure leaves that record as it was. It takes no input and moves
/// nothing out of the sink.
#[verifier::external_body]
pub(crate) fn decoder_finish(stream: &mut DecoderStream) -> (outcome: Result<(), std::io::Error>)
    ensures
        decoder_input(*final(stream)) == decoder_input(*old(stream)),
        decoder_output(*final(stream)) == decoder_output(*old(stream)),
        outcome is Ok ==> decoder_ended(*final(stream)),
        outcome is Err ==> decoder_ended(*final(stream)) == decoder_ended(*old(stream)),
{
    stream.finish()
}

/// Calls `zstd::stream::zio::Writer::writer_mut` on the decoder stream and
/// moves the decoded bytes collected so far out of the sink: they are what
/// is returned. It takes no input and neither ends the stream nor revives
/// it.
#[verifier::external_body]
pub(crate) fn decoder_take_output(stream: &mut DecoderStream) -> (bytes: Vec<u8>)
    ensures
        decoder_input(*final(stream)) == decoder_input(*old(stream)),
        decoder_output(*final(stream)) == decoder_output(*old(stream)) + bytes@,
        decoder_ended(*final(stream)) == decoder_ended(*old(stream)),
{
    std::mem::take(stream.writer_mut())
}

} // verus!
