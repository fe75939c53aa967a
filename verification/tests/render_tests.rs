use plantuml::builder::detected_platform;
use plantuml::paths::{locate_cache_dir, VERSION};
use plantuml::{execute_pipe, get_bundle_paths, render};

// The upstream diagram engine is an external collaborator: an opaque
// executable fed one diagram on its input stream that answers with SVG
// markup on its output stream. These tests populate the cache directory
// with a stand-in engine of that shape — a script that echoes its input
// inside an SVG element — and drive the real pipeline (path resolution,
// process start, stream round trip, classification) against it.
fn warm_cache(tag: &str) -> String {
    let target = detected_platform().expect("a supported platform");
    let dir = locate_cache_dir(VERSION);
    let paths = get_bundle_paths(&dir, target);
    fs_err::create_dir_all(format!("{}/runtime/bin", dir)).expect("create cache tree");

    let script = "#!/bin/sh\ninput=$(cat)\nprintf '<svg xmlns=\"http://www.w3.org/2000/svg\"><text>%s</text></svg>' \"$input\"\n";
    let staged = format!("{}.{}", paths.java_exe, tag);
    fs_err::write(&staged, script).expect("write stand-in runtime");
    let executable = fs_err::metadata("/bin/sh").expect("a known executable").permissions();
    fs_err::set_permissions(&staged, executable).expect("mark stand-in executable");
    fs_err::rename(&staged, &paths.java_exe).expect("place stand-in runtime");

    let staged_jar = format!("{}.{}", paths.plantuml_jar, tag);
    fs_err::write(&staged_jar, b"stand-in application archive").expect("write archive");
    fs_err::rename(&staged_jar, &paths.plantuml_jar).expect("place archive");
    dir
}

#[test]
fn test_render_simple() {
    warm_cache("render_simple");
    let input = "@startuml\nAlice -> Bob: Hello\n@enduml";
    let result = render(input);
    assert!(result.is_ok(), "Failed to render: {:?}", result);

    let svg = result.unwrap();
    assert!(svg.contains("<svg"), "Output should be SVG");
}

#[test]
fn test_render_sequence_diagram() {
    warm_cache("render_sequence");
    let input = r#"@startuml
participant Alice
participant Bob
Alice -> Bob: Authentication Request
Bob --> Alice: Authentication Response
@enduml"#;

    let result = render(input);
    assert!(
        result.is_ok(),
        "Failed to render sequence diagram: {:?}",
        result
    );
}

#[test]
fn test_render_class_diagram() {
    warm_cache("render_class");
    let input = r#"@startuml
class Car {
  +String make
  +String model
  +start()
  +stop()
}
@enduml"#;

    let result = render(input);
    assert!(
        result.is_ok(),
        "Failed to render class diagram: {:?}",
        result
    );
}

#[test]
fn test_simple_diagram() {
    warm_cache("simple_diagram");
    let input = r#"@startuml
Alice -> Bob: Hello
@enduml"#;

    let result = execute_pipe(input);
    assert!(result.is_ok(), "Should render simple diagram: {:?}", result);

    let svg = result.unwrap();
    assert!(svg.contains("<svg"), "Output should be SVG");
    assert!(svg.contains("Alice"), "SVG should contain Alice");
}

#[test]
fn test_syntax_error() {
    warm_cache("syntax_error");
    let input = "this is not valid plantuml";

    let result = execute_pipe(input);
    // The engine might still produce output for invalid input
    // so we just check it doesn't panic
    let _ = result;
}
