//! Decompression entry points and sessions: a container is classified by
//! its name, the request is checked against what the caller found out about
//! the paths, and the session the caller then drives is opened.

use crate::error::{fails_with, EngineError};
use crate::naming::{container_kind, container_kind_of, ContainerKind};
use crate::options::DecompressOptions;
use crate::policy::{buffer_size_for, size_policy};
use crate::progress::{
    all_handed, last_update_after, non_decreasing, reports_after, sink_of, DecodeProgress,
    ProgressCallback, ProgressTracker,
};
use crate::stream::{CompressionResult, DecodeStream, DecodedStep, PathFacts};
use vstd::prelude::*;

verus! {

/// The decompression of one compressed file in progress. The caller feeds
/// it the container piece by piece and writes the decoded bytes that come
/// back to the destination. After a failure the session is of no further
/// use.
pub struct FileDecompression<'a> {
    stream: DecodeStream,
    progress: DecodeProgress<'a>,
}

impl<'a> FileDecompression<'a> {
    /// The size of the compressed input.
    pub closed spec fn input_size(&self) -> u64 {
        self.progress.input_size()
    }

    /// The part of the container the decoder has taken in so far.
    pub closed spec fn fed(&self) -> Seq<u8> {
        self.stream.fed()
    }

    /// The decoded bytes the decoder has given out so far, in order.
    pub closed spec fn produced(&self) -> Seq<u8> {
        self.stream.produced()
    }

    /// The count of decoded bytes handed to the caller so far.
    pub closed spec fn decoded(&self) -> u64 {
        self.progress.decoded()
    }

    /// The decoded count at the time of the last estimated report.
    pub closed spec fn last_update(&self) -> u64 {
        self.progress.last_update()
    }

    /// Every progress value announced so far, oldest first.
    pub closed spec fn reports(&self) -> Seq<u64> {
        self.progress.reports()
    }

    /// Whether the session has been finished.
    pub closed spec fn completed(&self) -> bool {
        self.progress.completed()
    }

    /// The sink progress is announced to, if one is installed.
    pub closed spec fn sink(&self) -> Option<ProgressCallback> {
        self.progress.sink()
    }

    /// The count of decoded bytes is the length of what the decoder has
    /// given out, and the progress announced so far is consistent.
    pub closed spec fn wf(&self) -> bool {
        &&& self.stream.wf()
        &&& self.progress.wf()
        &&& self.progress.decoded() == self.stream.decoded()
    }

    /// A session as it is when just opened.
    pub open spec fn fresh(&self, input_size: u64, sink: Option<ProgressCallback>) -> bool {
        &&& self.wf()
        &&& !self.completed()
        &&& self.input_size() == input_size
        &&& self.fed() == Seq::<u8>::empty()
        &&& self.produced() == Seq::<u8>::empty()
        &&& self.decoded() == 0
        &&& self.last_update() == 0
        &&& self.reports() == Seq::<u64>::empty()
        &&& self.sink() == sink
    }

    /// Whether `self` is `before` with nothing changed but what the decoder
    /// has taken in and given out and what follows from it.
    pub open spec fn continues(&self, before: &Self) -> bool {
        &&& self.wf()
        &&& self.input_size() == before.input_size()
        &&& self.sink() == before.sink()
    }

    /// Opens the decompression of a container of `input_size` bytes.
    pub fn open(input_size: u64, callback: Option<&'a ProgressCallback>) -> (outcome: Result<
        Self,
        EngineError,
    >)
        ensures
            match outcome {
                Ok(session) => session.fresh(input_size, sink_of(callback)),
                Err(e) => e == EngineError::InvalidData,
            },
    {
        match DecodeStream::open() {
            Ok(stream) => Ok(
                FileDecompression { stream, progress: DecodeProgress::new(callback, input_size) },
            ),
            Err(e) => Err(e),
        }
    }

    /// The count of decoded bytes handed out so far.
    pub fn total_decoded(&self) -> (bytes: u64)
        ensures
            bytes == self.decoded(),
    {
        self.progress.total()
    }

    /// The size of the chunks the container is to be read in, chosen by the
    /// size of the container.
    pub fn buffer_size(&self) -> (size: usize)
        ensures
            size == buffer_size_for(self.input_size()),
    {
        size_policy(self.progress.compressed_size())
    }

    /// Every value announced so far is at most the one after it and at most
    /// the size of the compressed input; the last one of a finished session
    /// is that size; and the count of decoded bytes is the length of what
    /// the decoder has given out.
    pub proof fn lemma_counts_are_consistent(&self)
        requires
            self.wf(),
        ensures
            non_decreasing(self.reports()),
            all_handed(self.sink(), self.reports()),
            forall|i: int|
                0 <= i < self.reports().len() ==> #[trigger] self.reports()[i]
                    <= self.input_size(),
            self.completed() ==> self.reports().len() > 0 && self.reports().last()
                == self.input_size(),
            self.decoded() == self.produced().len(),
    {
        self.stream.lemma_count_is_length();
    }

    /// Runs the decoder once over `input` and returns how much of it was
    /// taken, from the front, together with the decoded bytes the decoder
    /// has given out. An estimate of the progress is announced once a
    /// mebibyte of decoded bytes has accumulated since the last one.
    pub fn step(&mut self, input: &[u8]) -> (outcome: Result<DecodedStep, EngineError>)
        requires
            old(self).wf(),
            !old(self).completed(),
        ensures
            match outcome {
                Ok(step) => {
                    &&& final(self).continues(old(self))
                    &&& !final(self).completed()
                    &&& step.consumed <= input@.len()
                    &&& input@.len() > 0 ==> step.consumed > 0
                    &&& final(self).fed() == old(self).fed() + input@.take(step.consumed as int)
                    &&& final(self).produced() == old(self).produced() + step.output@
                    &&& final(self).decoded() == old(self).decoded() + step.output@.len()
                    &&& final(self).last_update() == last_update_after(
                        old(self).last_update(),
                        final(self).decoded(),
                    )
                    &&& final(self).reports() == reports_after(
                        old(self).reports(),
                        old(self).last_update(),
                        final(self).decoded(),
                        old(self).input_size(),
                    )
                },
                Err(e) => e == EngineError::InvalidData || e == EngineError::TooLarge,
            },
    {
        let step = match self.stream.step(input) {
            Ok(step) => step,
            Err(e) => {
                return Err(e);
            },
        };
        match self.progress.record(step.output.len() as u64) {
            Ok(_) => Ok(step),
            Err(e) => Err(e),
        }
    }

    /// Ends the decompression: returns the decoded bytes the decoder still
    /// had to give out and the sizes of the whole operation, and announces
    /// the exact size of the compressed input as the last progress value.
    /// An input that stopped inside a frame is corrupt.
    pub fn finish(&mut self) -> (outcome: Result<(Vec<u8>, CompressionResult), EngineError>)
        requires
            old(self).wf(),
            !old(self).completed(),
        ensures
            match outcome {
                Ok((bytes, result)) => {
                    &&& final(self).continues(old(self))
                    &&& final(self).completed()
                    &&& final(self).fed() == old(self).fed()
                    &&& final(self).produced() == old(self).produced() + bytes@
                    &&& final(self).decoded() == old(self).decoded() + bytes@.len()
                    &&& result.input_size == old(self).input_size()
                    &&& result.output_size == final(self).decoded()
                    &&& result.output_size == final(self).produced().len()
                    &&& final(self).reports() == reports_after(
                        old(self).reports(),
                        old(self).last_update(),
                        final(self).decoded(),
                        old(self).input_size(),
                    ).push(old(self).input_size())
                },
                Err(e) => e == EngineError::InvalidData || e == EngineError::TooLarge,
            },
    {
        let bytes = match self.stream.finish() {
            Ok(bytes) => bytes,
            Err(e) => {
                return Err(e);
            },
        };
        match self.progress.record(bytes.len() as u64) {
            Ok(_) => {},
            Err(e) => {
                return Err(e);
            },
        }
        let input_size = self.progress.finish();
        let output_size = self.progress.total();
        proof {
            self.stream.lemma_count_is_length();
        }
        Ok((bytes, CompressionResult { input_size, output_size }))
    }
}

/// The extraction of a compressed archive in progress. The caller feeds it
/// the container piece by piece, unpacks the archive from the decoded
/// bytes, and reports each entry it has extracted. After a failure of the
/// decoder the session is of no further use.
pub struct ArchiveExtraction<'a> {
    stream: DecodeStream,
    tracker: ProgressTracker<'a>,
    input_size: u64,
    extracted: u64,
}

impl<'a> ArchiveExtraction<'a> {
    /// The size of the compressed input.
    pub closed spec fn input_size(&self) -> u64 {
        self.input_size
    }

    /// The part of the container the decoder has taken in so far.
    pub closed spec fn fed(&self) -> Seq<u8> {
        self.stream.fed()
    }

    /// The decoded bytes of the archive the decoder has given out so far.
    pub closed spec fn produced(&self) -> Seq<u8> {
        self.stream.produced()
    }

    /// Whether the input has been ended: the decoder has agreed that the
    /// container stopped at the end of a frame and takes no further input.
    pub closed spec fn ended(&self) -> bool {
        self.stream.ended()
    }

    /// The number of entries extracted so far.
    pub closed spec fn files(&self) -> u64 {
        self.tracker.processed()
    }

    /// The total size of the entries extracted so far.
    pub closed spec fn extracted(&self) -> u64 {
        self.extracted
    }

    /// Every progress value announced so far, oldest first: the running
    /// count of entries.
    pub closed spec fn reports(&self) -> Seq<u64> {
        self.tracker.reports()
    }

    /// The sink progress is announced to, if one is installed.
    pub closed spec fn sink(&self) -> Option<ProgressCallback> {
        self.tracker.sink()
    }

    /// The counts are consistent with what the decoder has given out and
    /// with the progress announced so far.
    pub closed spec fn wf(&self) -> bool {
        self.stream.wf() && self.tracker.wf()
    }

    /// A session as it is when just opened.
    pub open spec fn fresh(&self, input_size: u64, sink: Option<ProgressCallback>) -> bool {
        &&& self.wf()
        &&& self.input_size() == input_size
        &&& self.fed() == Seq::<u8>::empty()
        &&& self.produced() == Seq::<u8>::empty()
        &&& self.files() == 0
        &&& self.extracted() == 0
        &&& self.reports() == Seq::<u64>::empty()
        &&& self.sink() == sink
    }

    /// Whether `self` is `before` but for what the decoder has taken in and
    /// given out.
    pub open spec fn continues(&self, before: &Self) -> bool {
        &&& self.wf()
        &&& self.input_size() == before.input_size()
        &&& self.sink() == before.sink()
        &&& self.files() == before.files()
        &&& self.extracted() == before.extracted()
        &&& self.reports() == before.reports()
    }

    /// Opens the extraction of an archive of `input_size` compressed bytes.
    pub fn open(input_size: u64, callback: Option<&'a ProgressCallback>) -> (outcome: Result<
        Self,
        EngineError,
    >)
        ensures
            match outcome {
                Ok(session) => session.fresh(input_size, sink_of(callback)),
                Err(e) => e == EngineError::InvalidData,
            },
    {
        match DecodeStream::open() {
            Ok(stream) => Ok(
                ArchiveExtraction {
                    stream,
                    tracker: ProgressTracker::new(callback),
                    input_size,
                    extracted: 0,
                },
            ),
            Err(e) => Err(e),
        }
    }

    /// The number of entries extracted so far.
    pub fn file_count(&self) -> (files: u64)
        ensures
            files == self.files(),
    {
        self.tracker.total()
    }

    /// The running count of entries never decreases, and its last value is
    /// the number of entries extracted.
    pub proof fn lemma_counts_are_consistent(&self)
        requires
            self.wf(),
        ensures
            non_decreasing(self.reports()),
            all_handed(self.sink(), self.reports()),
            self.reports().len() > 0 ==> self.reports().last() == self.files(),
    {
    }

    /// Runs the decoder once over `input` and returns how much of it was
    /// taken, from the front, together with the decoded bytes of the
    /// archive the decoder has given out.
    pub fn step(&mut self, input: &[u8]) -> (outcome: Result<DecodedStep, EngineError>)
        requires
            old(self).wf(),
        ensures
            match outcome {
                Ok(step) => {
                    &&& final(self).continues(old(self))
                    &&& step.consumed <= input@.len()
                    &&& input@.len() > 0 ==> step.consumed > 0
                    &&& final(self).fed() == old(self).fed() + input@.take(step.consumed as int)
                    &&& final(self).produced() == old(self).produced() + step.output@
                },
                Err(e) => e == EngineError::InvalidData || e == EngineError::TooLarge,
            },
    {
        self.stream.step(input)
    }

    /// Ends the input: asks the decoder whether the container stopped at
    /// the end of a frame and, where it did, leaves the input ended and
    /// returns the decoded bytes of the archive the decoder still had to
    /// give out. An input that stopped inside a frame is corrupt, and the
    /// input is then left as ended or not as it was.
    pub fn drain(&mut self) -> (outcome: Result<Vec<u8>, EngineError>)
        requires
            old(self).wf(),
        ensures
            match outcome {
                Ok(bytes) => {
                    &&& final(self).continues(old(self))
                    &&& final(self).ended()
                    &&& final(self).fed() == old(self).fed()
                    &&& final(self).produced() == old(self).produced() + bytes@
                },
                Err(e) => {
                    &&& e == EngineError::InvalidData || e == EngineError::TooLarge
                    &&& e == EngineError::InvalidData ==> final(self).ended() == old(self).ended()
                },
            },
    {
        self.stream.finish()
    }

    /// Counts one extracted entry of `entry_size` bytes and announces the
    /// new number of entries. Counts that do not fit in 64 bits are refused
    /// and leave the session unchanged.
    pub fn entry_extracted(&mut self, entry_size: u64) -> (outcome: Result<u64, EngineError>)
        requires
            old(self).wf(),
        ensures
            final(self).wf(),
            final(self).input_size() == old(self).input_size(),
            final(self).fed() == old(self).fed(),
            final(self).produced() == old(self).produced(),
            final(self).sink() == old(self).sink(),
            old(self).files() + 1 <= u64::MAX && old(self).extracted() + entry_size <= u64::MAX
                ==> {
                &&& outcome == Ok::<u64, EngineError>((old(self).files() + 1) as u64)
                &&& final(self).files() == old(self).files() + 1
                &&& final(self).extracted() == old(self).extracted() + entry_size
                &&& final(self).reports() == old(self).reports().push(final(self).files())
            },
            old(self).files() + 1 > u64::MAX || old(self).extracted() + entry_size > u64::MAX
                ==> {
                &&& outcome == Err::<u64, EngineError>(EngineError::TooLarge)
                &&& final(self).files() == old(self).files()
                &&& final(self).extracted() == old(self).extracted()
                &&& final(self).reports() == old(self).reports()
            },
    {
        let extracted: u64 = match self.extracted.checked_add(entry_size) {
            Some(extracted) => extracted,
            None => {
                return Err(EngineError::TooLarge);
            },
        };
        match self.tracker.add(1) {
            Ok(files) => {
                self.extracted = extracted;
                Ok(files)
            },
            Err(e) => Err(e),
        }
    }

    /// Ends the extraction and returns its sizes: the compressed input and
    /// the total of the entries extracted.
    pub fn finish(self) -> (result: CompressionResult)
        ensures
            result.input_size == self.input_size(),
            result.output_size == self.extracted(),
    {
        CompressionResult { input_size: self.input_size, output_size: self.extracted }
    }
}

/// A decompression in progress, of either shape of container.
pub enum Decompression<'a> {
    /// One compressed file is being decompressed.
    SingleFile(FileDecompression<'a>),
    /// A compressed archive is being extracted.
    Archive(ArchiveExtraction<'a>),
}

/// Why the decompression of a single file is refused, if it is: the
/// destination exists and may not be overwritten, or the source is missing.
pub open spec fn single_file_refusal(source: PathFacts, destination: PathFacts, force: bool)
    -> Option<EngineError> {
    if destination.exists && !force {
        Some(EngineError::AlreadyExists)
    } else if !source.exists {
        Some(EngineError::NotFound)
    } else {
        None
    }
}

/// Why the extraction of an archive is refused, if it is: the caller chose
/// a destination that exists and is no directory, the destination exists
/// and may not be overwritten, or the source is missing.
pub open spec fn extraction_refusal(
    source: PathFacts,
    destination: PathFacts,
    force: bool,
    chosen: bool,
) -> Option<EngineError> {
    if chosen && destination.exists && !destination.is_directory {
        Some(EngineError::InvalidInput)
    } else if destination.exists && !force {
        Some(EngineError::AlreadyExists)
    } else if !source.exists {
        Some(EngineError::NotFound)
    } else {
        None
    }
}

/// Whether `outcome` is what the opening of a single-file decompression
/// owes: the refusal where there is one, and otherwise a fresh session,
/// unless the decoder could not be set up.
pub open spec fn opens_file_decompression(
    outcome: Result<FileDecompression<'_>, EngineError>,
    source: PathFacts,
    destination: PathFacts,
    force: bool,
    sink: Option<ProgressCallback>,
) -> bool {
    match single_file_refusal(source, destination, force) {
        Some(error) => fails_with(outcome, error),
        None => match outcome {
            Ok(session) => session.fresh(source.size, sink),
            Err(e) => e == EngineError::InvalidData,
        },
    }
}

/// Whether `outcome` is what the opening of an extraction owes: the refusal
/// where there is one, and otherwise a fresh session, unless the decoder
/// could not be set up.
pub open spec fn opens_extraction(
    outcome: Result<ArchiveExtraction<'_>, EngineError>,
    source: PathFacts,
    destination: PathFacts,
    force: bool,
    chosen: bool,
    sink: Option<ProgressCallback>,
) -> bool {
    match extraction_refusal(source, destination, force, chosen) {
        Some(error) => fails_with(outcome, error),
        None => match outcome {
            Ok(session) => session.fresh(source.size, sink),
            Err(e) => e == EngineError::InvalidData,
        },
    }
}

/// Whether `outcome` is what the decompression of the container called
/// `name` owes: a name that is no container's is refused before anything
/// else is looked at, then a missing source; an archive is extracted, any
/// other container is decompressed as a single file.
pub open spec fn opens_decompression(
    outcome: Result<Decompression<'_>, EngineError>,
    name: Seq<char>,
    source: PathFacts,
    destination: PathFacts,
    force: bool,
    chosen: bool,
    sink: Option<ProgressCallback>,
) -> bool {
    match container_kind_of(name) {
        Err(error) => fails_with(outcome, error),
        Ok(kind) => if !source.exists {
            fails_with(outcome, EngineError::NotFound)
        } else {
            match (kind, outcome) {
                (ContainerKind::SingleFile, Ok(Decompression::SingleFile(session))) =>
                    opens_file_decompression(
                    Ok(session),
                    source,
                    destination,
                    force,
                    sink,
                ),
                (ContainerKind::SingleFile, Err(e)) => opens_file_decompression(
                    Err(e),
                    source,
                    destination,
                    force,
                    sink,
                ),
                (ContainerKind::Archive, Ok(Decompression::Archive(session))) => opens_extraction(
                    Ok(session),
                    source,
                    destination,
                    force,
                    chosen,
                    sink,
                ),
                (ContainerKind::Archive, Err(e)) => opens_extraction(
                    Err(e),
                    source,
                    destination,
                    force,
                    chosen,
                    sink,
                ),
                _ => false,
            }
        },
    }
}

/// Decides whether a single compressed file may be decompressed.
pub fn check_decompress_single_file(source: &PathFacts, destination: &PathFacts, force: bool)
    -> (refusal: Option<EngineError>)
    ensures
        refusal == single_file_refusal(*source, *destination, force),
{
    if destination.exists && !force {
        Some(EngineError::AlreadyExists)
    } else if !source.exists {
        Some(EngineError::NotFound)
    } else {
        None
    }
}

/// Decides whether an archive may be extracted; `chosen` tells whether the
/// destination is the caller's choice rather than the derived one.
pub fn check_decompress_tar_zst(
    source: &PathFacts,
    destination: &PathFacts,
    force: bool,
    chosen: bool,
) -> (refusal: Option<EngineError>)
    ensures
        refusal == extraction_refusal(*source, *destination, force, chosen),
{
    if chosen && destination.exists && !destination.is_directory {
        Some(EngineError::InvalidInput)
    } else if destination.exists && !force {
        Some(EngineError::AlreadyExists)
    } else if !source.exists {
        Some(EngineError::NotFound)
    } else {
        None
    }
}

fn begin_single_file<'a>(
    source: &PathFacts,
    destination: &PathFacts,
    force: bool,
    callback: Option<&'a ProgressCallback>,
) -> (outcome: Result<FileDecompression<'a>, EngineError>)
    ensures
        opens_file_decompression(outcome, *source, *destination, force, sink_of(callback)),
{
    match check_decompress_single_file(source, destination, force) {
        Some(error) => Err(error),
        None => FileDecompression::open(source.size, callback),
    }
}

fn begin_extraction<'a>(
    source: &PathFacts,
    destination: &PathFacts,
    force: bool,
    chosen: bool,
    callback: Option<&'a ProgressCallback>,
) -> (outcome: Result<ArchiveExtraction<'a>, EngineError>)
    ensures
        opens_extraction(outcome, *source, *destination, force, chosen, sink_of(callback)),
{
    match check_decompress_tar_zst(source, destination, force, chosen) {
        Some(error) => Err(error),
        None => ArchiveExtraction::open(source.size, callback),
    }
}

fn begin_decompression<'a>(
    name: &str,
    source: &PathFacts,
    destination: &PathFacts,
    force: bool,
    chosen: bool,
    callback: Option<&'a ProgressCallback>,
) -> (outcome: Result<Decompression<'a>, EngineError>)
    ensures
        opens_decompression(
            outcome,
            name@,
            *source,
            *destination,
            force,
            chosen,
            sink_of(callback),
        ),
{
    let kind = match container_kind(name) {
        Ok(kind) => kind,
        Err(error) => {
            return Err(error);
        },
    };
    if !source.exists {
        return Err(EngineError::NotFound);
    }
    match kind {
        ContainerKind::SingleFile => {
            match begin_single_file(source, destination, force, callback) {
                Ok(session) => Ok(Decompression::SingleFile(session)),
                Err(error) => Err(error),
            }
        },
        ContainerKind::Archive => {
            match begin_extraction(source, destination, force, chosen, callback) {
                Ok(session) => Ok(Decompression::Archive(session)),
                Err(error) => Err(error),
            }
        },
    }
}

/// Begins the decompression of one compressed file of `source.size` bytes.
/// The caller feeds the container to [`FileDecompression::step`] in chunks
/// and writes what comes back to the destination.
pub fn decompress_single_file<'a>(
    source: &PathFacts,
    destination: &PathFacts,
    options: &'a DecompressOptions,
) -> (outcome: Result<FileDecompression<'a>, EngineError>)
    ensures
        opens_file_decompression(
            outcome,
            *source,
            *destination,
            options@.force,
            options.sink(),
        ),
{
    begin_single_file(source, destination, options.force(), options.progress_callback())
}

/// Begins the extraction of a compressed archive of `source.size` bytes
/// into a directory. The caller feeds the container to
/// [`ArchiveExtraction::step`], unpacks the archive from what comes back
/// and reports each entry with [`ArchiveExtraction::entry_extracted`].
pub fn decompress_tar_zst<'a>(
    source: &PathFacts,
    destination: &PathFacts,
    options: &'a DecompressOptions,
) -> (outcome: Result<ArchiveExtraction<'a>, EngineError>)
    ensures
        opens_extraction(
            outcome,
            *source,
            *destination,
            options@.force,
            options@.output_path is Some,
            options.sink(),
        ),
{
    let chosen: bool = options.output_path().is_some();
    begin_extraction(source, destination, options.force(), chosen, options.progress_callback())
}

/// Begins the decompression of the container called `name`, whichever of
/// the two shapes it has. The name decides before anything is read: one
/// that ends in `.tar.zst` is extracted as an archive, any other with the
/// `zst` extension is decompressed as a single file, and every other name
/// is refused.
pub fn decompress_file<'a>(
    name: &str,
    source: &PathFacts,
    destination: &PathFacts,
    options: &'a DecompressOptions,
) -> (outcome: Result<Decompression<'a>, EngineError>)
    ensures
        opens_decompression(
            outcome,
            name@,
            *source,
            *destination,
            options@.force,
            options@.output_path is Some,
            options.sink(),
        ),
{
    let chosen: bool = options.output_path().is_some();
    begin_decompression(
        name,
        source,
        destination,
        options.force(),
        chosen,
        options.progress_callback(),
    )
}

/// Begins the decompression of the container called `name` with nothing
/// but an overwrite permission: the destination is the derived one and no
/// progress is announced.
pub fn decompress_file_simple(
    name: &str,
    source: &PathFacts,
    destination: &PathFacts,
    force: bool,
) -> (outcome: Result<Decompression<'static>, EngineError>)
    ensures
        opens_decompression(outcome, name@, *source, *destination, force, false, None),
{
    begin_decompression(name, source, destination, force, false, None)
}

/// An existing destination is never overwritten without permission, and
/// a name that is no container's is refused whatever is known of the
/// paths, before anything could be read.
pub proof fn lemma_decompression_guards(
    outcome: Result<Decompression<'_>, EngineError>,
    name: Seq<char>,
    source: PathFacts,
    destination: PathFacts,
    force: bool,
    chosen: bool,
    sink: Option<ProgressCallback>,
)
    requires
        opens_decompression(outcome, name, source, destination, force, chosen, sink),
    ensures
        container_kind_of(name) is Err ==> fails_with(outcome, EngineError::InvalidInput),
        container_kind_of(name) is Ok && !source.exists ==> fails_with(
            outcome,
            EngineError::NotFound,
        ),
        container_kind_of(name) is Ok && source.exists && destination.exists && !force
            ==> fails_with(outcome, EngineError::AlreadyExists) || fails_with(
            outcome,
            EngineError::InvalidInput,
        ),
        container_kind_of(name) == Ok::<ContainerKind, EngineError>(ContainerKind::SingleFile)
            && source.exists ==> (fails_with(outcome, EngineError::AlreadyExists)
            <==> destination.exists && !force),
        outcome matches Ok(Decompression::Archive(_)) ==> container_kind_of(name) == Ok::<
            ContainerKind,
            EngineError,
        >(ContainerKind::Archive),
        outcome matches Ok(Decompression::SingleFile(_)) ==> container_kind_of(name) == Ok::<
            ContainerKind,
            EngineError,
        >(ContainerKind::SingleFile),
{
}

} // verus!
