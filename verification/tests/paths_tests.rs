use plantuml::get_bundle_paths;
use plantuml::paths::{cache_dir_path, locate_cache_dir, resolve_cache_base};
use plantuml::text::{find_char, str_contains, str_eq, str_starts_with};
use plantuml::PlatformTarget;

#[test]
fn test_get_bundle_paths() {
    let paths = get_bundle_paths("/home/u/.cache/plantuml-rs/0.1.0", PlatformTarget::LinuxX64);
    assert_eq!(paths.java_exe, "/home/u/.cache/plantuml-rs/0.1.0/runtime/bin/java");
    assert_eq!(paths.plantuml_jar, "/home/u/.cache/plantuml-rs/0.1.0/plantuml.jar");

    let windows = get_bundle_paths("/c/cache", PlatformTarget::WindowsX64);
    assert_eq!(windows.java_exe, "/c/cache/runtime/bin/java.exe");

    let macos = get_bundle_paths("/m", PlatformTarget::MacosArm64);
    assert_eq!(macos.java_exe, "/m/runtime/bin/java");
}

#[test]
fn test_paths_are_deterministic() {
    let a = get_bundle_paths("/d", PlatformTarget::LinuxArm64);
    let b = get_bundle_paths("/d", PlatformTarget::LinuxArm64);
    assert_eq!(a.java_exe, b.java_exe);
    assert_eq!(a.plantuml_jar, b.plantuml_jar);
}

#[test]
fn test_cache_dir_path() {
    assert_eq!(cache_dir_path("/home/u/.cache", "1.2.3"), "/home/u/.cache/plantuml-rs/1.2.3");
}

#[test]
fn test_resolve_cache_base_preference_order() {
    assert_eq!(
        resolve_cache_base(Some("/c".to_string()), Some("/d".to_string()), "/tmp".to_string()),
        "/c"
    );
    assert_eq!(resolve_cache_base(None, Some("/d".to_string()), "/tmp".to_string()), "/d");
    assert_eq!(resolve_cache_base(None, None, "/tmp".to_string()), "/tmp");
}

#[test]
fn test_locate_cache_dir_shape() {
    let dir = locate_cache_dir("9.9.9");
    assert!(dir.ends_with("/plantuml-rs/9.9.9"));
}

#[test]
fn test_text_utilities() {
    assert_eq!(find_char("abc/def", '/'), 3);
    assert_eq!(find_char("abcdef", '/'), 6);
    assert!(str_starts_with("Contents/Home/bin", "Contents/Home/"));
    assert!(!str_starts_with("Contents", "Contents/Home/"));
    assert!(str_eq("same", "same"));
    assert!(!str_eq("same", "sane"));
    assert!(str_contains("a Syntax Error here", "Syntax Error"));
    assert!(!str_contains("all fine", "Syntax Error"));
    assert!(str_contains("anything", ""));
}
