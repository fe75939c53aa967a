use plantuml::builder::{archive_format, canonical_entry_name, parse_platform_triple, repack_config};
use plantuml::{
    repackage, ArchiveFormat, BundleEntry, BundleEntryKind, PlatformTarget, RepackConfig,
    SourceEntry, SourceEntryKind,
};

fn dir(name: &str) -> SourceEntry {
    SourceEntry { name: name.to_string(), kind: SourceEntryKind::Directory }
}

fn file(name: &str, data: &[u8], mode: Option<u32>) -> SourceEntry {
    SourceEntry { name: name.to_string(), kind: SourceEntryKind::File { data: data.to_vec(), mode } }
}

fn names(bundle: &[BundleEntry]) -> Vec<String> {
    bundle.iter().map(|b| b.name.clone()).collect()
}

#[test]
fn test_strip_wrapper_invariant() {
    // Every entry begins with the wrapper directory; the bundle must hold
    // no name under it, and each wrapper-dir/X must become runtime/X.
    let cfg = repack_config(PlatformTarget::LinuxX64);
    let entries = vec![
        dir("wrapper-dir/"),
        dir("wrapper-dir/bin/"),
        file("wrapper-dir/bin/java", b"elf", Some(0o755)),
        file("wrapper-dir/release", b"notes", None),
    ];
    let bundle = repackage(b"jarbytes".to_vec(), &entries, &cfg);
    let ns = names(&bundle);
    assert_eq!(
        ns,
        vec!["plantuml.jar", "runtime/bin/", "runtime/bin/java", "runtime/release"]
    );
    assert!(ns.iter().all(|n| !n.starts_with("wrapper-dir/")));
}

#[test]
fn test_macos_wrapper_invariant() {
    // A macOS-shaped archive: payload under wrapper-dir/Contents/Home/,
    // plus a bare wrapper-dir/Contents/ directory entry. The bundle holds
    // runtime/... with Contents/Home stripped and no runtime/Contents at
    // all.
    let cfg = repack_config(PlatformTarget::MacosArm64);
    let entries = vec![
        dir("wrapper-dir/"),
        dir("wrapper-dir/Contents/"),
        dir("wrapper-dir/Contents/Home/"),
        dir("wrapper-dir/Contents/Home/bin/"),
        file("wrapper-dir/Contents/Home/bin/java", b"macho", Some(0o755)),
    ];
    let bundle = repackage(b"jarbytes".to_vec(), &entries, &cfg);
    let ns = names(&bundle);
    assert_eq!(ns, vec!["plantuml.jar", "runtime/bin/", "runtime/bin/java"]);
    assert!(ns.iter().all(|n| n != "runtime/Contents" && !n.starts_with("runtime/Contents")));
}

#[test]
fn test_permission_preservation() {
    // A tar-shaped entry for bin/java with an executable mode keeps that
    // mode; the Windows-format path, which carries no mode, yields the
    // standard non-executable default without error.
    let linux = repack_config(PlatformTarget::LinuxX64);
    let entries = vec![file("jdk/bin/java", b"elf", Some(0o755))];
    let bundle = repackage(Vec::new(), &entries, &linux);
    match &bundle[1].kind {
        BundleEntryKind::File { mode, .. } => {
            assert_eq!(*mode, 0o755);
            assert!(mode & 0o100 != 0, "bin/java must stay executable");
        }
        _ => panic!("expected a file entry"),
    }

    let windows = repack_config(PlatformTarget::WindowsX64);
    let entries = vec![file("jdk/bin/java.exe", b"pe", None)];
    let bundle = repackage(Vec::new(), &entries, &windows);
    match &bundle[1].kind {
        BundleEntryKind::File { mode, .. } => assert_eq!(*mode, 0o644),
        _ => panic!("expected a file entry"),
    }
}

#[test]
fn test_mode_default_when_source_has_none() {
    let linux = repack_config(PlatformTarget::LinuxX64);
    let entries = vec![file("jdk/readme.txt", b"hi", None)];
    let bundle = repackage(Vec::new(), &entries, &linux);
    match &bundle[1].kind {
        BundleEntryKind::File { mode, .. } => assert_eq!(*mode, 0o644),
        _ => panic!("expected a file entry"),
    }
}

#[test]
fn test_jar_is_root_entry() {
    let cfg = repack_config(PlatformTarget::LinuxX64);
    let bundle = repackage(b"payload".to_vec(), &Vec::new(), &cfg);
    assert_eq!(bundle.len(), 1);
    assert_eq!(bundle[0].name, "plantuml.jar");
    match &bundle[0].kind {
        BundleEntryKind::File { data, mode } => {
            assert_eq!(data.as_slice(), b"payload");
            assert_eq!(*mode, 0o644);
        }
        _ => panic!("expected a file entry"),
    }
}

#[test]
fn test_symlinks_and_specials_skipped() {
    let cfg = repack_config(PlatformTarget::LinuxX64);
    let entries = vec![
        SourceEntry { name: "jdk/bin/link".to_string(), kind: SourceEntryKind::Other },
        file("jdk/bin/java", b"elf", Some(0o755)),
    ];
    let bundle = repackage(Vec::new(), &entries, &cfg);
    assert_eq!(names(&bundle), vec!["plantuml.jar", "runtime/bin/java"]);
}

#[test]
fn test_canonical_entry_name_cases() {
    // The top-level wrapper alone, with or without separator, is nothing
    // but wrapper: discarded.
    assert_eq!(canonical_entry_name("jdk-21/", false), None);
    assert_eq!(canonical_entry_name("jdk-21", false), None);
    assert_eq!(canonical_entry_name("jdk-21/bin/java", false), Some("bin/java".to_string()));
    // macOS stripping applies only when asked for.
    assert_eq!(
        canonical_entry_name("w/Contents/Home/bin", false),
        Some("Contents/Home/bin".to_string())
    );
    assert_eq!(canonical_entry_name("w/Contents/Home/bin", true), Some("bin".to_string()));
    assert_eq!(canonical_entry_name("w/Contents/Home/", true), None);
    assert_eq!(canonical_entry_name("w/Contents/Home", true), None);
    assert_eq!(canonical_entry_name("w/Contents/", true), None);
    assert_eq!(canonical_entry_name("w/Contents", true), None);
    // Other Contents-relatives stay.
    assert_eq!(canonical_entry_name("w/Contents/Info.plist", true), Some("Contents/Info.plist".to_string()));
    // Only a whole Contents/Home segment is stripped, not a name that
    // merely begins with those characters.
    assert_eq!(
        canonical_entry_name("w/Contents/Homework", true),
        Some("Contents/Homework".to_string())
    );
}

#[test]
fn test_directory_name_normalized() {
    // A tar directory entry without a trailing separator is legal; its
    // bundle name gains one.
    let cfg = repack_config(PlatformTarget::LinuxX64);
    let entries = vec![dir("jdk/bin")];
    let bundle = repackage(Vec::new(), &entries, &cfg);
    assert_eq!(names(&bundle), vec!["plantuml.jar", "runtime/bin/"]);
}

#[test]
fn test_platform_triple_recognition() {
    assert_eq!(
        parse_platform_triple("x86_64-pc-windows-msvc"),
        Some(PlatformTarget::WindowsX64)
    );
    assert_eq!(
        parse_platform_triple("x86_64-unknown-linux-gnu"),
        Some(PlatformTarget::LinuxX64)
    );
    assert_eq!(
        parse_platform_triple("aarch64-unknown-linux-gnu"),
        Some(PlatformTarget::LinuxArm64)
    );
    assert_eq!(parse_platform_triple("x86_64-apple-darwin"), Some(PlatformTarget::MacosX64));
    assert_eq!(parse_platform_triple("aarch64-apple-darwin"), Some(PlatformTarget::MacosArm64));
    assert_eq!(parse_platform_triple("riscv64gc-unknown-linux-gnu"), None);
}

#[test]
fn test_platform_configuration() {
    assert_eq!(
        repack_config(PlatformTarget::WindowsX64),
        RepackConfig { preserve_permissions: false, strip_macos_wrapper: false }
    );
    assert_eq!(
        repack_config(PlatformTarget::LinuxX64),
        RepackConfig { preserve_permissions: true, strip_macos_wrapper: false }
    );
    assert_eq!(
        repack_config(PlatformTarget::MacosX64),
        RepackConfig { preserve_permissions: true, strip_macos_wrapper: true }
    );
    assert_eq!(archive_format(PlatformTarget::WindowsX64), ArchiveFormat::Zip);
    assert_eq!(archive_format(PlatformTarget::LinuxArm64), ArchiveFormat::GzipTar);
    assert_eq!(archive_format(PlatformTarget::MacosArm64), ArchiveFormat::GzipTar);
}
