use std::io::Write;

use plantuml::builder::repack_config;
use plantuml::decode_runtime_archive;
use plantuml::cache::{entry_actions, join_path};
use plantuml::{
    build_canonical_bundle, encode_bundle, needs_extraction, plan_extraction, read_bundle_entries,
    ArchiveEntry, ArchiveFormat, BundleEntry, BundleEntryKind, ExtractAction, PlatformTarget,
    SourceEntry, SourceEntryKind,
};

fn dir(name: &str) -> SourceEntry {
    SourceEntry { name: name.to_string(), kind: SourceEntryKind::Directory }
}

fn file(name: &str, data: &[u8], mode: Option<u32>) -> SourceEntry {
    SourceEntry { name: name.to_string(), kind: SourceEntryKind::File { data: data.to_vec(), mode } }
}

#[test]
fn test_bundle_round_trip() {
    // Build a synthetic bundle, then decode it: the same entries come
    // back, with the container's stored modes.
    let cfg = repack_config(PlatformTarget::LinuxX64);
    let entries = vec![
        dir("jdk-21/"),
        dir("jdk-21/bin/"),
        file("jdk-21/bin/java", b"elf-bytes", Some(0o755)),
        file("jdk-21/lib/modules", b"module-data", None),
    ];
    let bytes = build_canonical_bundle(b"jar-bytes".to_vec(), &entries, &cfg)
        .expect("building the bundle must succeed");
    let decoded = read_bundle_entries(bytes).expect("decoding the bundle must succeed");

    let summary: Vec<(String, bool, Vec<u8>, Option<u32>)> = decoded
        .into_iter()
        .map(|e| (e.name, e.is_dir, e.data, e.mode))
        .collect();
    assert_eq!(
        summary,
        vec![
            ("plantuml.jar".to_string(), false, b"jar-bytes".to_vec(), Some(0o100644)),
            ("runtime/bin/".to_string(), true, Vec::new(), Some(0o40755)),
            ("runtime/bin/java".to_string(), false, b"elf-bytes".to_vec(), Some(0o100755)),
            ("runtime/lib/modules".to_string(), false, b"module-data".to_vec(), Some(0o100644)),
        ]
    );
}

#[test]
fn test_executable_bit_survives_container() {
    let cfg = repack_config(PlatformTarget::LinuxX64);
    let entries = vec![file("jdk/bin/java", b"x", Some(0o755))];
    let bytes = build_canonical_bundle(Vec::new(), &entries, &cfg).unwrap();
    let decoded = read_bundle_entries(bytes).unwrap();
    let java = decoded.iter().find(|e| e.name == "runtime/bin/java").unwrap();
    let mode = java.mode.expect("a stored mode");
    assert!(mode & 0o100 != 0, "executable bit must survive the container");
}

#[test]
fn test_decode_rejects_malformed_bytes() {
    let r = read_bundle_entries(b"this is no archive".to_vec());
    assert!(matches!(r, Err(plantuml::PlantUmlError::BinaryExtraction(_))));
}

#[test]
fn test_decode_foreign_archive() {
    // An archive produced by the container library directly, not through
    // this crate's writer, decodes to the same entries.
    let mut w = zip::ZipWriter::new(std::io::Cursor::new(Vec::new()));
    let opts = zip::write::SimpleFileOptions::default();
    w.add_directory("d/", opts).unwrap();
    w.start_file("d/f.txt", opts.unix_permissions(0o600)).unwrap();
    w.write_all(b"contents").unwrap();
    let bytes = w.finish().unwrap().into_inner();

    let decoded = read_bundle_entries(bytes).unwrap();
    assert_eq!(decoded.len(), 2);
    assert_eq!(decoded[0].name, "d/");
    assert!(decoded[0].is_dir);
    assert_eq!(decoded[1].name, "d/f.txt");
    assert!(!decoded[1].is_dir);
    assert_eq!(decoded[1].data, b"contents");
    assert_eq!(decoded[1].mode, Some(0o100600));
}

#[test]
fn test_encode_bundle_entries_directly() {
    let entries = vec![
        BundleEntry { name: "runtime/".to_string(), kind: BundleEntryKind::Directory },
        BundleEntry {
            name: "runtime/a".to_string(),
            kind: BundleEntryKind::File { data: b"abc".to_vec(), mode: 0o644 },
        },
    ];
    let bytes = encode_bundle(&entries).unwrap();
    let decoded = read_bundle_entries(bytes).unwrap();
    assert_eq!(decoded[0].name, "runtime/");
    assert_eq!(decoded[1].name, "runtime/a");
    assert_eq!(decoded[1].data, b"abc");
}

fn gzip(bytes: &[u8]) -> Vec<u8> {
    let mut encoder =
        flate2::write::GzEncoder::new(Vec::new(), flate2::Compression::default());
    encoder.write_all(bytes).unwrap();
    encoder.finish().unwrap()
}

#[test]
fn test_decode_gzip_tar_runtime_archive() {
    // A synthetic gzipped tar with a directory, an executable file and a
    // symbolic link decodes to the matching source entries.
    let mut builder = tar::Builder::new(Vec::new());

    let mut dir_header = tar::Header::new_gnu();
    dir_header.set_entry_type(tar::EntryType::Directory);
    dir_header.set_size(0);
    dir_header.set_mode(0o755);
    dir_header.set_cksum();
    builder.append_data(&mut dir_header, "jdk/bin/", &b""[..]).unwrap();

    let mut file_header = tar::Header::new_gnu();
    file_header.set_entry_type(tar::EntryType::Regular);
    file_header.set_size(3);
    file_header.set_mode(0o755);
    file_header.set_cksum();
    builder.append_data(&mut file_header, "jdk/bin/java", &b"elf"[..]).unwrap();

    let mut link_header = tar::Header::new_gnu();
    link_header.set_entry_type(tar::EntryType::Symlink);
    link_header.set_size(0);
    link_header.set_mode(0o777);
    link_header.set_link_name("java").unwrap();
    link_header.set_cksum();
    builder.append_data(&mut link_header, "jdk/bin/java-link", &b""[..]).unwrap();

    let tarball = builder.into_inner().unwrap();
    let entries = decode_runtime_archive(gzip(&tarball), ArchiveFormat::GzipTar)
        .expect("a well-formed archive decodes");

    assert_eq!(entries.len(), 3);
    assert_eq!(entries[0].name, "jdk/bin/");
    assert_eq!(entries[0].kind, SourceEntryKind::Directory);
    assert_eq!(entries[1].name, "jdk/bin/java");
    assert_eq!(
        entries[1].kind,
        SourceEntryKind::File { data: b"elf".to_vec(), mode: Some(0o755) }
    );
    assert_eq!(entries[2].kind, SourceEntryKind::Other);
}

#[test]
fn test_decode_zip_runtime_archive() {
    let mut w = zip::ZipWriter::new(std::io::Cursor::new(Vec::new()));
    let opts = zip::write::SimpleFileOptions::default();
    w.add_directory("jdk/bin/", opts).unwrap();
    w.start_file("jdk/bin/java.exe", opts).unwrap();
    w.write_all(b"pe").unwrap();
    let bytes = w.finish().unwrap().into_inner();

    let entries = decode_runtime_archive(bytes, ArchiveFormat::Zip).unwrap();
    assert_eq!(entries.len(), 2);
    assert_eq!(entries[0].name, "jdk/bin/");
    assert_eq!(entries[0].kind, SourceEntryKind::Directory);
    assert_eq!(entries[1].name, "jdk/bin/java.exe");
    assert!(matches!(entries[1].kind, SourceEntryKind::File { .. }));
}

#[test]
fn test_decode_rejects_bad_gzip() {
    let r = decode_runtime_archive(b"no gzip here".to_vec(), ArchiveFormat::GzipTar);
    assert!(matches!(r, Err(plantuml::PlantUmlError::BinaryExtraction(_))));
}

#[test]
fn test_extraction_plan() {
    let entries = vec![
        ArchiveEntry { name: "plantuml.jar".to_string(), is_dir: false, data: b"j".to_vec(), mode: Some(0o100644) },
        ArchiveEntry { name: "runtime/bin/".to_string(), is_dir: true, data: Vec::new(), mode: Some(0o40755) },
        ArchiveEntry { name: "runtime/bin/java".to_string(), is_dir: false, data: b"e".to_vec(), mode: Some(0o100755) },
    ];
    let plan = plan_extraction("/cache/v1", &entries);
    assert_eq!(
        plan,
        vec![
            ExtractAction::MakeDir("/cache/v1".to_string()),
            ExtractAction::WriteFile {
                path: "/cache/v1/plantuml.jar".to_string(),
                data: b"j".to_vec(),
                mode: Some(0o100644),
            },
            ExtractAction::MakeDir("/cache/v1/runtime/bin/".to_string()),
            ExtractAction::MakeDir("/cache/v1/runtime/bin".to_string()),
            ExtractAction::WriteFile {
                path: "/cache/v1/runtime/bin/java".to_string(),
                data: b"e".to_vec(),
                mode: Some(0o100755),
            },
        ]
    );
}

#[test]
fn test_entry_actions_parent_creation() {
    let e = ArchiveEntry {
        name: "runtime/lib/modules".to_string(),
        is_dir: false,
        data: b"m".to_vec(),
        mode: None,
    };
    let acts = entry_actions("/base", &e);
    assert_eq!(acts.len(), 2);
    assert_eq!(acts[0], ExtractAction::MakeDir("/base/runtime/lib".to_string()));
    match &acts[1] {
        ExtractAction::WriteFile { path, data, mode } => {
            assert_eq!(path, "/base/runtime/lib/modules");
            assert_eq!(data, b"m");
            assert_eq!(*mode, None);
        }
        _ => panic!("expected a file write"),
    }
}

#[test]
fn test_join_path() {
    assert_eq!(join_path("/a/b", "c.txt"), "/a/b/c.txt");
}

#[test]
fn test_needs_extraction() {
    assert!(!needs_extraction(true, true));
    assert!(needs_extraction(false, true));
    assert!(needs_extraction(true, false));
    assert!(needs_extraction(false, false));
}
