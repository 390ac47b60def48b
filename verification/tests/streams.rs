use file_compressor::{
    check_compress_directory, check_compress_file, check_compress_multiple,
    check_decompress_single_file, check_decompress_tar_zst, check_verify, compress_file,
    compress_file_simple, decompress_file, decompress_file_simple,
    decompress_single_file, verify_zst, verify_zst_simple, CompressOptions, CompressionResult,
    DecompressOptions, Decompression, EngineError, PathFacts, ProgressCallback,
    BUFFER_SIZE_LARGE, BUFFER_SIZE_SMALL,
};
use std::sync::{Arc, Mutex};

fn present(size: usize) -> PathFacts {
    PathFacts { exists: true, is_directory: false, size: size as u64 }
}

fn absent() -> PathFacts {
    PathFacts { exists: false, is_directory: false, size: 0 }
}

fn text_fixture(lines: usize) -> Vec<u8> {
    b"Questo e' un testo di prova per testare la compressione e decompressione.\n".repeat(lines)
}

fn noise(len: usize) -> Vec<u8> {
    let mut state: u64 = 0x1234_5678_9abc_def1;
    let mut bytes = Vec::with_capacity(len);
    for _ in 0..len {
        state ^= state << 13;
        state ^= state >> 7;
        state ^= state << 17;
        bytes.push((state >> 32) as u8);
    }
    bytes
}

fn compress_bytes(data: &[u8], options: &CompressOptions) -> (Vec<u8>, CompressionResult) {
    let mut stream = compress_file(&present(data.len()), &absent(), options, 2).unwrap();
    let mut container = Vec::new();
    for chunk in data.chunks(stream.buffer_size()) {
        container.extend(stream.write_chunk(chunk).unwrap());
    }
    let (tail, result) = stream.finish().unwrap();
    container.extend(tail);
    (container, result)
}

fn decompress_bytes(
    container: &[u8],
    options: &DecompressOptions,
) -> Result<(Vec<u8>, CompressionResult), EngineError> {
    let mut session = decompress_single_file(&present(container.len()), &absent(), options)?;
    let mut data = Vec::new();
    for chunk in container.chunks(64 * 1024) {
        let mut rest = chunk;
        while !rest.is_empty() {
            let step = session.step(rest)?;
            assert!(step.consumed > 0 && step.consumed <= rest.len());
            data.extend(step.output);
            rest = &rest[step.consumed..];
        }
    }
    let (tail, result) = session.finish()?;
    data.extend(tail);
    Ok((data, result))
}

fn verify_bytes(
    container: &[u8],
    callback: Option<&ProgressCallback>,
) -> Result<file_compressor::VerifyResult, EngineError> {
    let mut verification = verify_zst("fixture.zst", &present(container.len()), callback)?;
    for chunk in container.chunks(64 * 1024) {
        verification.feed(chunk)?;
    }
    verification.finish()
}

fn recorder() -> (Arc<Mutex<Vec<u64>>>, impl Fn(u64) + Send + Sync + 'static) {
    let seen = Arc::new(Mutex::new(Vec::new()));
    let sink = Arc::clone(&seen);
    (seen, move |units| sink.lock().unwrap().push(units))
}

#[test]
fn test_compress_decompress_roundtrip() {
    let original_content = text_fixture(100);
    let name = "test_lib_roundtrip.txt";
    let compressed_name = file_compressor::naming::build_output_path(name);
    assert_eq!(compressed_name, "test_lib_roundtrip.txt.zst");

    let mut stream =
        compress_file_simple(&present(original_content.len()), &absent(), 3, true, 1).unwrap();
    let mut container = stream.write_chunk(&original_content).unwrap();
    let (tail, _) = stream.finish().unwrap();
    container.extend(tail);

    let session =
        decompress_file_simple(&compressed_name, &present(container.len()), &absent(), true)
            .unwrap();
    let mut session = match session {
        Decompression::SingleFile(session) => session,
        Decompression::Archive(_) => panic!("a single file was expected"),
    };
    let mut decompressed_content = Vec::new();
    let mut rest = &container[..];
    while !rest.is_empty() {
        let step = session.step(rest).unwrap();
        decompressed_content.extend(step.output);
        rest = &rest[step.consumed..];
    }
    let (tail, _) = session.finish().unwrap();
    decompressed_content.extend(tail);
    assert_eq!(original_content, decompressed_content.as_slice());
    assert_eq!(file_compressor::naming::decompressed_output_name(&compressed_name), name);
}

#[test]
fn test_verify_valid_zst() {
    let original_content = b"Test content for verification.\n".repeat(50);
    let (container, _) = compress_bytes(&original_content, &CompressOptions::new(3).with_force(true));
    let mut verification =
        verify_zst_simple("test_lib_verify.txt.zst", &present(container.len())).unwrap();
    verification.feed(&container).unwrap();
    let result = verification.finish();
    assert!(result.is_ok());
}

#[test]
fn round_trip_is_exact_at_every_level() {
    let fixtures = [Vec::new(), b"x".to_vec(), text_fixture(300), noise(70_000)];
    for level in 1..=21 {
        for data in &fixtures {
            let (container, result) = compress_bytes(data, &CompressOptions::new(level));
            assert_eq!(result.input_size, data.len() as u64);
            assert_eq!(result.output_size, container.len() as u64);
            let (back, sizes) = decompress_bytes(&container, &DecompressOptions::new()).unwrap();
            assert_eq!(&back, data, "level {}", level);
            assert_eq!(sizes.input_size, container.len() as u64);
            assert_eq!(sizes.output_size, data.len() as u64);
        }
    }
}

#[test]
fn round_trip_is_exact_with_parallel_workers_and_large_inputs() {
    let mut data = text_fixture(20_000);
    data.extend(noise(11 * 1024 * 1024));
    assert!(data.len() > 10 * 1024 * 1024);
    for options in [
        CompressOptions::new(1),
        CompressOptions::new(1).with_parallel(true),
        CompressOptions::new(3).with_auto_parallel(false),
    ] {
        let (container, result) = compress_bytes(&data, &options);
        assert_eq!(result.input_size, data.len() as u64);
        assert_eq!(result.output_size, container.len() as u64);
        let (back, _) = decompress_bytes(&container, &DecompressOptions::new()).unwrap();
        assert!(back == data);
    }
}

#[test]
fn higher_effort_does_not_compress_repeated_text_worse() {
    let data = text_fixture(2000);
    let (fast, _) = compress_bytes(&data, &CompressOptions::new(1));
    let (slow, _) = compress_bytes(&data, &CompressOptions::new(19));
    assert!(slow.len() <= fast.len());
    assert!(fast.len() < data.len());
}

#[test]
fn buffer_size_follows_the_input_size() {
    let options = CompressOptions::new(3);
    let small = compress_file(&present(10 * 1024 * 1024 - 1), &absent(), &options, 1).unwrap();
    assert_eq!(small.buffer_size(), BUFFER_SIZE_SMALL);
    let large = compress_file(&present(10 * 1024 * 1024), &absent(), &options, 1).unwrap();
    assert_eq!(large.buffer_size(), BUFFER_SIZE_LARGE);
    let options = DecompressOptions::new();
    let small =
        decompress_single_file(&present(10 * 1024 * 1024 - 1), &absent(), &options).unwrap();
    assert_eq!(small.buffer_size(), BUFFER_SIZE_SMALL);
    let large = decompress_single_file(&present(10 * 1024 * 1024), &absent(), &options).unwrap();
    assert_eq!(large.buffer_size(), BUFFER_SIZE_LARGE);
}

#[test]
fn streams_keep_count_of_what_went_through() {
    let data = text_fixture(10);
    let options = CompressOptions::new(3);
    let mut stream = compress_file(&present(data.len()), &absent(), &options, 1).unwrap();
    assert_eq!((stream.total_processed(), stream.total_written()), (0, 0));
    let first = stream.write_chunk(&data[..100]).unwrap();
    assert_eq!(stream.total_processed(), 100);
    assert_eq!(stream.total_written(), first.len() as u64);
    let second = stream.write(&data[100..]).unwrap();
    assert_eq!(stream.total_processed(), 100);
    assert_eq!(stream.total_written(), (first.len() + second.len()) as u64);
    assert_eq!(stream.record(7), Ok(107));
    let (tail, result) = stream.finish().unwrap();
    let mut container = first;
    container.extend(second);
    container.extend(tail);
    assert_eq!(result.output_size, container.len() as u64);
    assert_eq!(result.input_size, data.len() as u64);

    let mut verification = verify_zst_simple("data.zst", &present(container.len())).unwrap();
    assert_eq!(verification.total_decoded(), 0);
    verification.feed(&container).unwrap();
    let result = verification.finish().unwrap();
    assert_eq!(verification.total_decoded(), data.len() as u64);
    assert_eq!(result.decompressed_size, data.len() as u64);

    let mut stream = file_compressor::DecodeStream::open().unwrap();
    let mut decoded = Vec::new();
    let mut rest = &container[..];
    while !rest.is_empty() {
        let step = stream.step(rest).unwrap();
        decoded.extend(step.output);
        rest = &rest[step.consumed..];
        assert_eq!(stream.total_decoded(), decoded.len() as u64);
    }
    decoded.extend(stream.finish().unwrap());
    assert_eq!(stream.total_decoded(), data.len() as u64);
    assert_eq!(decoded, data);
}

#[test]
fn compressing_a_missing_source_is_not_found() {
    let options = CompressOptions::new(3).with_force(true);
    let outcome = compress_file(&absent(), &absent(), &options, 1);
    assert_eq!(outcome.err(), Some(EngineError::NotFound));
    let outcome = compress_file(&absent(), &present(10), &options, 1);
    assert_eq!(outcome.err(), Some(EngineError::NotFound));
}

#[test]
fn compressing_into_an_existing_destination_needs_force() {
    let guarded = CompressOptions::new(3);
    let outcome = compress_file(&present(100), &present(40), &guarded, 1);
    assert_eq!(outcome.err(), Some(EngineError::AlreadyExists));
    let outcome = compress_file_simple(&present(100), &present(40), 3, false, 1);
    assert_eq!(outcome.err(), Some(EngineError::AlreadyExists));

    let forced = CompressOptions::new(3).with_force(true);
    let mut stream = compress_file(&present(5), &present(40), &forced, 1).unwrap();
    let mut container = stream.write_chunk(b"hello").unwrap();
    let (tail, result) = stream.finish().unwrap();
    container.extend(tail);
    assert_eq!(result, CompressionResult { input_size: 5, output_size: container.len() as u64 });
    let (back, _) = decompress_bytes(&container, &DecompressOptions::new()).unwrap();
    assert_eq!(back, b"hello");
}

#[test]
fn decompressing_into_an_existing_destination_needs_force() {
    let guarded = DecompressOptions::new();
    let outcome = decompress_single_file(&present(100), &present(40), &guarded);
    assert_eq!(outcome.err(), Some(EngineError::AlreadyExists));
    let outcome = decompress_single_file(&absent(), &absent(), &guarded);
    assert_eq!(outcome.err(), Some(EngineError::NotFound));
    let forced = DecompressOptions::new().with_force(true);
    assert!(decompress_single_file(&present(100), &present(40), &forced).is_ok());
}

#[test]
fn decompress_file_routes_by_name_before_anything_else() {
    let options = DecompressOptions::new();
    let outcome = decompress_file("notes.txt", &absent(), &absent(), &options);
    assert_eq!(outcome.err(), Some(EngineError::InvalidInput));
    let outcome = decompress_file("notes.txt", &present(10), &absent(), &options);
    assert_eq!(outcome.err(), Some(EngineError::InvalidInput));
    let outcome = decompress_file("notes.txt.zst", &absent(), &absent(), &options);
    assert_eq!(outcome.err(), Some(EngineError::NotFound));
    let outcome = decompress_file("tree.tar.zst", &absent(), &absent(), &options);
    assert_eq!(outcome.err(), Some(EngineError::NotFound));

    let single = decompress_file("notes.txt.zst", &present(10), &absent(), &options).unwrap();
    assert!(matches!(single, Decompression::SingleFile(_)));
    let archive = decompress_file("tree.tar.zst", &present(10), &absent(), &options).unwrap();
    assert!(matches!(archive, Decompression::Archive(_)));

    let outcome = decompress_file("notes.txt.zst", &present(10), &present(3), &options);
    assert_eq!(outcome.err(), Some(EngineError::AlreadyExists));
    let outcome = decompress_file("tree.tar.zst", &present(10), &present(3), &options);
    assert_eq!(outcome.err(), Some(EngineError::AlreadyExists));
}

#[test]
fn extraction_refuses_a_chosen_destination_that_is_a_file() {
    let file = PathFacts { exists: true, is_directory: false, size: 3 };
    let directory = PathFacts { exists: true, is_directory: true, size: 0 };
    let chosen = DecompressOptions::new().with_force(true).with_output_path("out");
    let outcome = decompress_file("tree.tar.zst", &present(10), &file, &chosen);
    assert_eq!(outcome.err(), Some(EngineError::InvalidInput));
    assert!(decompress_file("tree.tar.zst", &present(10), &directory, &chosen).is_ok());
    let guarded = DecompressOptions::new().with_output_path("out");
    let outcome = decompress_file("tree.tar.zst", &present(10), &directory, &guarded);
    assert_eq!(outcome.err(), Some(EngineError::AlreadyExists));
}

#[test]
fn verify_accepts_what_was_compressed() {
    let data = text_fixture(5000);
    let (container, _) = compress_bytes(&data, &CompressOptions::new(5));
    let result = verify_bytes(&container, None).unwrap();
    assert_eq!(result.compressed_size, container.len() as u64);
    assert_eq!(result.decompressed_size, data.len() as u64);
}

#[test]
fn verify_detects_a_truncated_container() {
    for data in [b"x".to_vec(), text_fixture(500), noise(200_000)] {
        let (container, _) = compress_bytes(&data, &CompressOptions::new(3));
        assert!(verify_bytes(&container, None).is_ok());
        let truncated = &container[..container.len() - 1];
        assert_eq!(verify_bytes(truncated, None).err(), Some(EngineError::InvalidData));
        assert_eq!(
            decompress_bytes(truncated, &DecompressOptions::new()).err(),
            Some(EngineError::InvalidData)
        );
    }
}

#[test]
fn verify_detects_garbage_and_emptiness() {
    assert_eq!(verify_bytes(&[], None).err(), Some(EngineError::InvalidData));
    assert_eq!(verify_bytes(b"this is no container", None).err(), Some(EngineError::InvalidData));
    let (mut container, _) = compress_bytes(&text_fixture(1000), &CompressOptions::new(3));
    container[0] ^= 0xff;
    assert_eq!(verify_bytes(&container, None).err(), Some(EngineError::InvalidData));
    assert_eq!(
        decompress_bytes(&container, &DecompressOptions::new()).err(),
        Some(EngineError::InvalidData)
    );
}

#[test]
fn verify_refuses_a_wrong_extension_before_anything_else() {
    let outcome = verify_zst("archive.zip", &absent(), None);
    assert_eq!(outcome.err(), Some(EngineError::InvalidInput));
    let outcome = verify_zst("archive.zip", &present(10), None);
    assert_eq!(outcome.err(), Some(EngineError::InvalidInput));
    let outcome = verify_zst(".zst", &present(10), None);
    assert_eq!(outcome.err(), Some(EngineError::InvalidInput));
    let outcome = verify_zst("archive.zst", &absent(), None);
    assert_eq!(outcome.err(), Some(EngineError::NotFound));
    assert!(verify_zst("archive.tar.zst", &present(10), None).is_ok());
}

#[test]
fn compression_reports_the_bytes_read_after_every_chunk() {
    let data = noise(3 * 256 * 1024 + 17);
    let (seen, callback) = recorder();
    let options = CompressOptions::new(1).with_progress(callback);
    let (_, result) = compress_bytes(&data, &options);
    let expected: Vec<u64> =
        vec![256 * 1024, 2 * 256 * 1024, 3 * 256 * 1024, 3 * 256 * 1024 + 17];
    assert_eq!(*seen.lock().unwrap(), expected);
    assert_eq!(result.input_size, data.len() as u64);
}

#[test]
fn decompression_reports_throttled_estimates_and_ends_at_the_input_size() {
    let data = text_fixture(100_000);
    let (container, _) = compress_bytes(&data, &CompressOptions::new(3));
    let (seen, callback) = recorder();
    let options = DecompressOptions::new().with_progress(callback);
    let (back, _) = decompress_bytes(&container, &options).unwrap();
    assert!(back == data);
    let seen = seen.lock().unwrap();
    assert!(seen.len() >= 2);
    assert!(seen.len() as u64 <= data.len() as u64 / (1024 * 1024) + 1);
    assert!(seen.windows(2).all(|pair| pair[0] <= pair[1]));
    assert!(seen.iter().all(|&units| units <= container.len() as u64));
    assert_eq!(*seen.last().unwrap(), container.len() as u64);
}

#[test]
fn decompression_estimates_a_third_of_the_decoded_bytes() {
    // Random bytes do not compress, so the container is far larger than a
    // third of what it decodes to and the estimate is never capped.
    let data = noise(4 * 1024 * 1024);
    let (container, _) = compress_bytes(&data, &CompressOptions::new(1));
    let (seen, callback) = recorder();
    let sink = ProgressCallback::new(callback);
    let mut session = file_compressor::FileDecompression::open(container.len() as u64, Some(&sink))
        .unwrap();
    let mut decoded: u64 = 0;
    let mut last_update: u64 = 0;
    let mut expected = Vec::new();
    let mut rest = &container[..];
    while !rest.is_empty() {
        let step = session.step(rest).unwrap();
        decoded += step.output.len() as u64;
        if decoded - last_update >= 1024 * 1024 {
            expected.push((decoded / 3).min(container.len() as u64));
            last_update = decoded;
        }
        rest = &rest[step.consumed..];
    }
    let (tail, result) = session.finish().unwrap();
    decoded += tail.len() as u64;
    if decoded - last_update >= 1024 * 1024 {
        expected.push((decoded / 3).min(container.len() as u64));
    }
    expected.push(container.len() as u64);
    assert_eq!(result.output_size, data.len() as u64);
    assert_eq!(*seen.lock().unwrap(), expected);
    assert!(expected.len() >= 4);
}

#[test]
fn verification_reports_like_decompression() {
    let data = text_fixture(60_000);
    let (container, _) = compress_bytes(&data, &CompressOptions::new(3));
    let (seen, callback) = recorder();
    let sink = ProgressCallback::new(callback);
    let result = verify_bytes(&container, Some(&sink)).unwrap();
    assert_eq!(result.decompressed_size, data.len() as u64);
    let seen = seen.lock().unwrap();
    assert!(seen.windows(2).all(|pair| pair[0] <= pair[1]));
    assert_eq!(*seen.last().unwrap(), container.len() as u64);
}

#[test]
fn small_inputs_report_only_the_completion() {
    let (container, _) = compress_bytes(b"tiny", &CompressOptions::new(3));
    let (seen, callback) = recorder();
    let options = DecompressOptions::new().with_progress(callback);
    decompress_bytes(&container, &options).unwrap();
    assert_eq!(*seen.lock().unwrap(), vec![container.len() as u64]);
}

#[test]
fn containers_laid_end_to_end_decode_to_their_contents_in_order() {
    let first = text_fixture(40);
    let second = noise(5000);
    let (mut container, _) = compress_bytes(&first, &CompressOptions::new(2));
    let (more, _) = compress_bytes(&second, &CompressOptions::new(7));
    container.extend(more);
    let (back, sizes) = decompress_bytes(&container, &DecompressOptions::new()).unwrap();
    let mut expected = first.clone();
    expected.extend(&second);
    assert_eq!(back, expected);
    assert_eq!(sizes.output_size, expected.len() as u64);
    container.extend(b"trailing bytes that are no frame");
    assert_eq!(
        decompress_bytes(&container, &DecompressOptions::new()).err(),
        Some(EngineError::InvalidData)
    );
}

#[test]
fn requests_are_checked_without_opening_anything() {
    let file = present(10);
    let directory = PathFacts { exists: true, is_directory: true, size: 10 };
    assert_eq!(check_compress_file(&file, &absent(), false), None);
    assert_eq!(check_compress_file(&file, &file, true), None);
    assert_eq!(check_compress_file(&file, &file, false), Some(EngineError::AlreadyExists));
    assert_eq!(check_compress_file(&absent(), &file, false), Some(EngineError::NotFound));
    assert_eq!(check_compress_directory(&directory, &absent(), false), None);
    assert_eq!(check_compress_directory(&file, &absent(), true), Some(EngineError::InvalidInput));
    assert_eq!(check_compress_directory(&absent(), &file, true), Some(EngineError::NotFound));
    assert_eq!(
        check_compress_directory(&directory, &file, false),
        Some(EngineError::AlreadyExists)
    );
    assert_eq!(check_compress_multiple(&vec![file, file], &absent(), false), Ok(20));
    assert_eq!(
        check_compress_multiple(&vec![file, absent()], &file, false),
        Err(EngineError::NotFound)
    );
    assert_eq!(check_decompress_single_file(&file, &absent(), false), None);
    assert_eq!(
        check_decompress_single_file(&absent(), &file, false),
        Some(EngineError::AlreadyExists)
    );
    assert_eq!(check_decompress_single_file(&absent(), &file, true), Some(EngineError::NotFound));
    assert_eq!(check_decompress_tar_zst(&file, &directory, true, true), None);
    assert_eq!(
        check_decompress_tar_zst(&file, &file, true, true),
        Some(EngineError::InvalidInput)
    );
    assert_eq!(check_decompress_tar_zst(&file, &file, true, false), None);
    assert_eq!(
        check_decompress_tar_zst(&file, &file, false, false),
        Some(EngineError::AlreadyExists)
    );
    assert_eq!(check_verify("a.zst", &file), None);
    assert_eq!(check_verify("a.zst", &absent()), Some(EngineError::NotFound));
    assert_eq!(check_verify("a.txt", &absent()), Some(EngineError::InvalidInput));
}

#[test]
fn an_ended_decoding_takes_no_further_input() {
    let (container, _) = compress_bytes(&text_fixture(20), &CompressOptions::new(3));
    let mut stream = file_compressor::DecodeStream::open().unwrap();
    let mut decoded = Vec::new();
    let mut rest = &container[..];
    while !rest.is_empty() {
        let step = stream.step(rest).unwrap();
        decoded.extend(step.output);
        rest = &rest[step.consumed..];
    }
    decoded.extend(stream.finish().unwrap());
    assert_eq!(decoded, text_fixture(20));
    assert_eq!(stream.step(&container).err(), Some(EngineError::InvalidData));
    assert_eq!(stream.finish(), Ok(Vec::new()));

    let mut unfinished = file_compressor::DecodeStream::open().unwrap();
    let step = unfinished.step(&container[..container.len() - 1]).unwrap();
    assert!(step.consumed > 0);
    assert_eq!(unfinished.finish().err(), Some(EngineError::InvalidData));
    // The refusal did not end the stream: it still takes input.
    let mut rest = &container[step.consumed..];
    let mut decoded = step.output;
    while !rest.is_empty() {
        let step = unfinished.step(rest).unwrap();
        decoded.extend(step.output);
        rest = &rest[step.consumed..];
    }
    decoded.extend(unfinished.finish().unwrap());
    assert_eq!(decoded, text_fixture(20));
}
