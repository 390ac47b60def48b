//! Streaming compression engine for files and directory trees.
//!
//! The library holds the decisions of the engine: the size policy, the
//! configuration objects, the naming of containers, the accounting of
//! progress and the codec sessions. It never touches the file system itself;
//! callers read and write the bytes and hand plain facts about paths in.

pub mod archive;
pub mod batch;
pub mod codec;
pub mod compress;
pub mod decompress;
pub mod error;
pub mod format;
pub mod level;
pub mod naming;
pub mod options;
pub mod policy;
pub mod progress;
pub mod stream;
pub mod text;
pub mod verify;

pub use archive::{
    add_dir_to_tar, archive_member_name, calculate_dir_size, count_files_in_dir, ArchiveMember,
    DirectoryEntry,
};
pub use batch::{BatchReport, BatchRun, ItemOutcome};
pub use compress::{
    check_compress_directory, check_compress_file, check_compress_multiple, compress_directory,
    compress_file, compress_file_simple, compress_multiple_files,
};
pub use decompress::{
    check_decompress_single_file, check_decompress_tar_zst, decompress_file,
    decompress_file_simple, decompress_single_file, decompress_tar_zst, ArchiveExtraction,
    Decompression, FileDecompression,
};
pub use error::EngineError;
pub use format::{format_ratio, format_size};
pub use level::{compression_level_hint, parse_level};
pub use naming::{build_output_path, container_kind, ContainerKind, OutputTarget};
pub use options::{CompressOptions, DecompressOptions, MAX_LEVEL, MIN_LEVEL};
pub use policy::{
    num_cpus, should_use_long_distance, should_use_parallel, size_policy,
    AUTO_PARALLEL_THRESHOLD, BUFFER_SIZE, BUFFER_SIZE_LARGE, BUFFER_SIZE_SMALL,
    LARGE_FILE_THRESHOLD, LARGE_WINDOW_LOG,
};
pub use progress::{DecodeProgress, ProgressCallback, ProgressTracker, PROGRESS_INTERVAL};
pub use stream::{
    CompressionPlan, CompressionResult, CompressionStream, DecodeStream, DecodedStep, PathFacts,
    VerifyResult,
};
pub use verify::{check_verify, verify_zst, verify_zst_simple, Verification};
