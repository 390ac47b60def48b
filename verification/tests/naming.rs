use file_compressor::naming::{
    archive_output_name, build_output_path, container_kind, decompressed_output_name,
    extraction_output_name, find_last_dot, find_stem_end, is_archive_name, is_compressed_name,
    resolve_extraction, resolve_output, str_ends_with, ContainerKind, OutputTarget,
};
use file_compressor::EngineError;

#[test]
fn compressed_names_append_the_extension() {
    assert_eq!(build_output_path("notes.txt"), "notes.txt.zst");
    assert_eq!(build_output_path("notes"), "notes.zst");
    assert_eq!(build_output_path("archive.tar"), "archive.tar.zst");
    assert_eq!(build_output_path(".profile"), ".profile.zst");
    assert_eq!(build_output_path("dati.più.csv"), "dati.più.csv.zst");
}

#[test]
fn archive_names_append_both_extensions() {
    assert_eq!(archive_output_name(Some("photos")), "photos.tar.zst");
    assert_eq!(archive_output_name(Some("v1.2")), "v1.2.tar.zst");
    assert_eq!(archive_output_name(None), "archivio.tar.zst");
}

#[test]
fn decompressed_names_strip_the_last_extension() {
    assert_eq!(decompressed_output_name("name.txt.zst"), "name.txt");
    assert_eq!(decompressed_output_name("name.zst"), "name");
    assert_eq!(decompressed_output_name("a.b.c.zst"), "a.b.c");
    assert_eq!(decompressed_output_name("plain"), "plain");
    assert_eq!(decompressed_output_name(".zst"), ".zst");
    assert_eq!(decompressed_output_name(".."), "..");
    assert_eq!(decompressed_output_name("name."), "name");
    assert_eq!(decompressed_output_name("..zst"), ".");
}

#[test]
fn extraction_names_strip_both_extensions() {
    assert_eq!(extraction_output_name("photos.tar.zst"), "photos");
    assert_eq!(extraction_output_name("v1.2.tar.zst"), "v1.2");
    assert_eq!(extraction_output_name("bundle.zst"), "bundle");
    assert_eq!(extraction_output_name(".tar.zst"), ".tar");
    assert_eq!(extraction_output_name("..zst"), "output");
    assert_eq!(extraction_output_name("...zst"), "output");
    assert_eq!(extraction_output_name(""), "output");
}

#[test]
fn names_round_trip_through_compression() {
    for name in ["a.txt", "b", "sub.dir.file", ".hidden", "c.tar", "ünïcode.dat"] {
        let compressed = build_output_path(name);
        assert!(is_compressed_name(&compressed));
        assert_eq!(decompressed_output_name(&compressed), name);
    }
    for name in ["photos", "v1.2", ".config", "ünïcode"] {
        let archived = archive_output_name(Some(name));
        assert_eq!(container_kind(&archived), Ok(ContainerKind::Archive));
        assert_eq!(extraction_output_name(&archived), name);
    }
}

#[test]
fn containers_are_told_apart_by_name() {
    assert_eq!(container_kind("tree.tar.zst"), Ok(ContainerKind::Archive));
    assert_eq!(container_kind(".tar.zst"), Ok(ContainerKind::Archive));
    assert_eq!(container_kind("notes.txt.zst"), Ok(ContainerKind::SingleFile));
    assert_eq!(container_kind("notes.zst"), Ok(ContainerKind::SingleFile));
    assert_eq!(container_kind("tar.zst"), Ok(ContainerKind::SingleFile));
    assert_eq!(container_kind("xtar.zst"), Ok(ContainerKind::SingleFile));
    assert_eq!(container_kind("..zst"), Ok(ContainerKind::SingleFile));
    for name in ["notes.txt", "notes.zstd", "notes.ZST", ".zst", "zst", "", "notes.zst.bak",
        "notes.tar", "notes.zst "]
    {
        assert_eq!(container_kind(name), Err(EngineError::InvalidInput), "{:?}", name);
    }
}

#[test]
fn extension_checks_agree_with_the_standard_path_type() {
    let names = [
        "a", "a.zst", ".zst", "...zst", "a.tar.zst", ".tar.zst", "a.b", "a.", ".a", "..", "...",
        "a..zst", "zst", "a.zst.", "ä.zst", "a.tar",
    ];
    for name in names {
        let path = std::path::Path::new(name);
        let extension = path.extension().and_then(|e| e.to_str()).unwrap_or("");
        assert_eq!(is_compressed_name(name), extension == "zst", "{:?}", name);
        assert_eq!(is_archive_name(name), name.ends_with(".tar.zst"), "{:?}", name);
        let stem = path.with_extension("");
        assert_eq!(decompressed_output_name(name), stem.to_str().unwrap(), "{:?}", name);
        let directory = path
            .file_stem()
            .and_then(|s| std::path::Path::new(s).file_stem())
            .map(|s| s.to_str().unwrap().to_string())
            .unwrap_or_else(|| "output".to_string());
        assert_eq!(extraction_output_name(name), directory, "{:?}", name);
    }
}

#[test]
fn dots_and_suffixes_are_found() {
    assert_eq!(find_last_dot("a.b.c"), Some(3));
    assert_eq!(find_last_dot("abc"), None);
    assert_eq!(find_last_dot(""), None);
    assert_eq!(find_last_dot(".abc"), Some(0));
    assert_eq!(find_stem_end(".abc"), None);
    assert_eq!(find_stem_end(".."), None);
    assert_eq!(find_stem_end("..."), Some(2));
    assert_eq!(find_stem_end("a.b"), Some(1));
    assert!(str_ends_with("abc", "bc"));
    assert!(str_ends_with("abc", ""));
    assert!(str_ends_with("abc", "abc"));
    assert!(!str_ends_with("abc", "xabc"));
    assert!(!str_ends_with("abc", "ab"));
    assert!(str_ends_with("perché", "ché"));
}

fn describe(target: OutputTarget) -> String {
    match target {
        OutputTarget::BesideInput { name } => format!("beside:{}", name),
        OutputTarget::InDirectory { directory, name } => format!("in:{}:{}", directory, name),
        OutputTarget::Exact { path } => format!("exact:{}", path),
    }
}

#[test]
fn outputs_go_where_the_caller_chose() {
    let derived = || build_output_path("a.txt");
    assert_eq!(describe(resolve_output(derived(), None, false)), "beside:a.txt.zst");
    assert_eq!(describe(resolve_output(derived(), None, true)), "beside:a.txt.zst");
    assert_eq!(describe(resolve_output(derived(), Some("out"), true)), "in:out:a.txt.zst");
    assert_eq!(describe(resolve_output(derived(), Some("out/b.zst"), false)), "exact:out/b.zst");
    let directory = || extraction_output_name("tree.tar.zst");
    assert_eq!(describe(resolve_extraction(directory(), None)), "beside:tree");
    assert_eq!(describe(resolve_extraction(directory(), Some("elsewhere"))), "exact:elsewhere");
}
