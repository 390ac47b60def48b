//! Compression entry points: each checks what the caller found out about
//! the paths involved, tunes the encoder by the size policy and opens the
//! stream the caller then drives.

use crate::error::{fails_with, EngineError};
use crate::options::{valid_level, CompressOptions, CompressSettings};
use crate::progress::{sink_of, ProgressCallback};
use crate::stream::{compression_plan, plan_compression, CompressionStream, PathFacts};
use vstd::prelude::*;

verus! {

/// Why the compression of a single file is refused, if it is: the source is
/// missing, or the destination exists and may not be overwritten.
pub open spec fn compress_file_refusal(source: PathFacts, destination: PathFacts, force: bool)
    -> Option<EngineError> {
    if !source.exists {
        Some(EngineError::NotFound)
    } else if destination.exists && !force {
        Some(EngineError::AlreadyExists)
    } else {
        None
    }
}

/// Why the compression of a directory is refused, if it is: the source is
/// missing or no directory, or the destination exists and may not be
/// overwritten.
pub open spec fn compress_directory_refusal(
    source: PathFacts,
    destination: PathFacts,
    force: bool,
) -> Option<EngineError> {
    if !source.exists {
        Some(EngineError::NotFound)
    } else if !source.is_directory {
        Some(EngineError::InvalidInput)
    } else if destination.exists && !force {
        Some(EngineError::AlreadyExists)
    } else {
        None
    }
}

/// Whether every file of the list exists.
pub open spec fn all_exist(files: Seq<PathFacts>) -> bool {
    forall|i: int| 0 <= i < files.len() ==> (#[trigger] files[i]).exists
}

/// The total length of the files of the list.
pub open spec fn total_size(files: Seq<PathFacts>) -> nat
    decreases files.len(),
{
    if files.len() == 0 {
        0
    } else {
        total_size(files.drop_last()) + files.last().size as nat
    }
}

/// Why the compression of a list of files is refused, if it is: one of them
/// is missing, the destination exists and may not be overwritten, or their
/// total length does not fit in 64 bits.
pub open spec fn compress_multiple_refusal(
    files: Seq<PathFacts>,
    destination: PathFacts,
    force: bool,
) -> Option<EngineError> {
    if !all_exist(files) {
        Some(EngineError::NotFound)
    } else if destination.exists && !force {
        Some(EngineError::AlreadyExists)
    } else if total_size(files) > u64::MAX {
        Some(EngineError::TooLarge)
    } else {
        None
    }
}

/// The settings that a level and an overwrite permission alone stand for.
pub open spec fn simple_settings(level: i32, force: bool) -> CompressSettings {
    CompressSettings {
        level,
        force,
        parallel: false,
        auto_parallel: true,
        output_path: None,
    }
}

/// Whether `outcome` is what an entry point owes: the refusal where there
/// is one, and otherwise a fresh stream tuned for `size` bytes under
/// `settings` that announces its progress to `sink`, unless the codec could
/// not be set up.
pub open spec fn opens_compression(
    outcome: Result<CompressionStream<'_>, EngineError>,
    refusal: Option<EngineError>,
    size: u64,
    settings: CompressSettings,
    workers: u32,
    sink: Option<ProgressCallback>,
) -> bool {
    match refusal {
        Some(error) => fails_with(outcome, error),
        None => match outcome {
            Ok(stream) => stream.fresh(
                compression_plan(
                    size,
                    settings.level,
                    settings.parallel,
                    settings.auto_parallel,
                    workers,
                ),
                size,
                sink,
            ),
            Err(e) => e == EngineError::Codec,
        },
    }
}

/// Opens a stream for `size` input bytes unless `refusal` holds an error.
fn open_unless<'a>(
    refusal: Option<EngineError>,
    size: u64,
    level: i32,
    parallel: bool,
    auto_parallel: bool,
    workers: u32,
    callback: Option<&'a ProgressCallback>,
) -> (outcome: Result<CompressionStream<'a>, EngineError>)
    ensures
        match refusal {
            Some(error) => fails_with(outcome, error),
            None => match outcome {
                Ok(stream) => stream.fresh(
                    compression_plan(size, level, parallel, auto_parallel, workers),
                    size,
                    sink_of(callback),
                ),
                Err(e) => e == EngineError::Codec,
            },
        },
{
    match refusal {
        Some(error) => Err(error),
        None => {
            let plan = plan_compression(size, level, parallel, auto_parallel, workers);
            CompressionStream::open(plan, size, callback)
        },
    }
}

/// Decides whether a single file may be compressed.
pub fn check_compress_file(source: &PathFacts, destination: &PathFacts, force: bool) -> (refusal:
    Option<EngineError>)
    ensures
        refusal == compress_file_refusal(*source, *destination, force),
{
    if !source.exists {
        Some(EngineError::NotFound)
    } else if destination.exists && !force {
        Some(EngineError::AlreadyExists)
    } else {
        None
    }
}

/// Decides whether a directory may be compressed.
pub fn check_compress_directory(source: &PathFacts, destination: &PathFacts, force: bool)
    -> (refusal: Option<EngineError>)
    ensures
        refusal == compress_directory_refusal(*source, *destination, force),
{
    if !source.exists {
        Some(EngineError::NotFound)
    } else if !source.is_directory {
        Some(EngineError::InvalidInput)
    } else if destination.exists && !force {
        Some(EngineError::AlreadyExists)
    } else {
        None
    }
}

/// Begins the compression of one regular file of `source.size` bytes. The
/// caller reads the file in chunks of the stream's buffer size, hands each
/// to [`CompressionStream::write_chunk`] and writes what comes back to the
/// destination; nothing is written before this function has accepted the
/// request.
pub fn compress_file<'a>(
    source: &PathFacts,
    destination: &PathFacts,
    options: &'a CompressOptions,
    workers: u32,
) -> (outcome: Result<CompressionStream<'a>, EngineError>)
    ensures
        opens_compression(
            outcome,
            compress_file_refusal(*source, *destination, options@.force),
            source.size,
            options@,
            workers,
            options.sink(),
        ),
{
    open_unless(
        check_compress_file(source, destination, options.force()),
        source.size,
        options.level(),
        options.parallel(),
        options.auto_parallel(),
        workers,
        options.progress_callback(),
    )
}

/// Begins the compression of one regular file with nothing but a level and
/// an overwrite permission.
pub fn compress_file_simple(
    source: &PathFacts,
    destination: &PathFacts,
    level: i32,
    force: bool,
    workers: u32,
) -> (outcome: Result<CompressionStream<'static>, EngineError>)
    requires
        valid_level(level as int),
    ensures
        opens_compression(
            outcome,
            compress_file_refusal(*source, *destination, force),
            source.size,
            simple_settings(level, force),
            workers,
            None,
        ),
{
    open_unless(
        check_compress_file(source, destination, force),
        source.size,
        level,
        false,
        true,
        workers,
        None,
    )
}

/// Begins the compression of a directory whose regular files total
/// `source.size` bytes. The caller writes the archive of the directory into
/// the stream with [`CompressionStream::write`] and reports each file it has
/// appended with [`CompressionStream::record`].
pub fn compress_directory<'a>(
    source: &PathFacts,
    destination: &PathFacts,
    options: &'a CompressOptions,
    workers: u32,
) -> (outcome: Result<CompressionStream<'a>, EngineError>)
    ensures
        opens_compression(
            outcome,
            compress_directory_refusal(*source, *destination, options@.force),
            source.size,
            options@,
            workers,
            options.sink(),
        ),
{
    open_unless(
        check_compress_directory(source, destination, options.force()),
        source.size,
        options.level(),
        options.parallel(),
        options.auto_parallel(),
        workers,
        options.progress_callback(),
    )
}

/// Adding a file to a list adds its length to the total.
pub proof fn lemma_total_size_push(files: Seq<PathFacts>, file: PathFacts)
    ensures
        total_size(files.push(file)) == total_size(files) + file.size,
{
    assert(files.push(file).drop_last() =~= files);
}

/// The total of a part of a list is at most the total of the whole.
pub proof fn lemma_total_size_prefix(files: Seq<PathFacts>, count: int)
    requires
        0 <= count <= files.len(),
    ensures
        total_size(files.take(count)) <= total_size(files),
    decreases files.len() - count,
{
    if count < files.len() {
        lemma_total_size_prefix(files, count + 1);
        assert(files.take(count + 1).drop_last() =~= files.take(count));
    } else {
        assert(files.take(count) =~= files);
    }
}

/// Decides whether a list of files may be compressed into one archive, and
/// totals their lengths.
pub fn check_compress_multiple(files: &Vec<PathFacts>, destination: &PathFacts, force: bool)
    -> (outcome: Result<u64, EngineError>)
    ensures
        match compress_multiple_refusal(files@, *destination, force) {
            Some(error) => outcome == Err::<u64, EngineError>(error),
            None => outcome == Ok::<u64, EngineError>(total_size(files@) as u64),
        },
{
    let mut i: usize = 0;
    while i < files.len()
        invariant
            i <= files.len(),
            forall|j: int| 0 <= j < i ==> (#[trigger] files@[j]).exists,
        decreases files.len() - i,
    {
        if !files[i].exists {
            return Err(EngineError::NotFound);
        }
        i = i + 1;
    }
    if destination.exists && !force {
        return Err(EngineError::AlreadyExists);
    }
    let mut total: u64 = 0;
    let mut k: usize = 0;
    while k < files.len()
        invariant
            k <= files.len(),
            all_exist(files@),
            !(destination.exists && !force),
            total == total_size(files@.take(k as int)),
        decreases files.len() - k,
    {
        proof {
            lemma_total_size_push(files@.take(k as int), files@[k as int]);
            assert(files@.take(k as int).push(files@[k as int]) =~= files@.take(k + 1));
            lemma_total_size_prefix(files@, k + 1);
        }
        total = match total.checked_add(files[k].size) {
            Some(sum) => sum,
            None => {
                return Err(EngineError::TooLarge);
            },
        };
        k = k + 1;
    }
    proof {
        assert(files@.take(files.len() as int) =~= files@);
    }
    Ok(total)
}

/// Begins the compression of an explicit list of files into one archive.
/// Every file is checked before anything is written. The caller stores each
/// file under its bare name, writes the archive into the stream and reports
/// each file it has appended.
pub fn compress_multiple_files<'a>(
    files: &Vec<PathFacts>,
    destination: &PathFacts,
    options: &'a CompressOptions,
    workers: u32,
) -> (outcome: Result<CompressionStream<'a>, EngineError>)
    ensures
        opens_compression(
            outcome,
            compress_multiple_refusal(files@, *destination, options@.force),
            total_size(files@) as u64,
            options@,
            workers,
            options.sink(),
        ),
{
    match check_compress_multiple(files, destination, options.force()) {
        Ok(total) => open_unless(
            None,
            total,
            options.level(),
            options.parallel(),
            options.auto_parallel(),
            workers,
            options.progress_callback(),
        ),
        Err(error) => Err(error),
    }
}

/// An existing destination is never overwritten without permission:
/// whichever compression is asked for, a request whose source is in order
/// is refused because the destination exists exactly when it does exist
/// and overwriting was not permitted.
pub proof fn lemma_existing_output_guard(
    source: PathFacts,
    files: Seq<PathFacts>,
    destination: PathFacts,
    force: bool,
)
    ensures
        source.exists ==> (compress_file_refusal(source, destination, force) == Some(
            EngineError::AlreadyExists,
        ) <==> destination.exists && !force),
        source.exists && source.is_directory ==> (compress_directory_refusal(
            source,
            destination,
            force,
        ) == Some(EngineError::AlreadyExists) <==> destination.exists && !force),
        all_exist(files) ==> (compress_multiple_refusal(files, destination, force) == Some(
            EngineError::AlreadyExists,
        ) <==> destination.exists && !force),
        source.exists ==> compress_file_refusal(source, destination, true) is None,
        source.exists && source.is_directory ==> compress_directory_refusal(
            source,
            destination,
            true,
        ) is None,
{
}

} // verus!
