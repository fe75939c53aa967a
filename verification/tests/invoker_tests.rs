use plantuml::{classify_output, invocation_args, PlantUmlError, ProcessExit};

#[test]
fn test_invocation_args() {
    let args = invocation_args("/cache/v1/plantuml.jar");
    assert_eq!(
        args,
        vec!["-jar", "/cache/v1/plantuml.jar", "-pipe", "-tsvg", "-charset", "UTF-8"]
    );
}

#[test]
fn test_successful_render_output() {
    // A zero exit hands back the output stream decoded as text.
    let svg = b"<svg xmlns=\"x\"><text>Alice</text></svg>".to_vec();
    let r = classify_output(ProcessExit::Exited(0), svg, &Vec::new());
    let text = r.expect("zero exit with valid text must succeed");
    assert!(text.contains("<svg"), "output should be SVG");
    assert!(text.contains("Alice"), "SVG should contain Alice");
}

#[test]
fn test_invalid_output_encoding() {
    let bad = vec![0x3c, 0x73, 0xff, 0xfe];
    let r = classify_output(ProcessExit::Exited(0), bad, &Vec::new());
    assert!(matches!(r, Err(PlantUmlError::InvalidUtf8(_))));
}

#[test]
fn test_syntax_error_classification() {
    // Malformed diagram text that the tool reports via its marker on the
    // error stream classifies as a syntax error carrying that text, not
    // as a generic process failure.
    let stderr = b"ERROR\n2\nSyntax Error?\nSome diagram description".to_vec();
    let r = classify_output(ProcessExit::Exited(1), Vec::new(), &stderr);
    match r {
        Err(PlantUmlError::SyntaxError(text)) => {
            assert!(text.contains("Syntax Error"), "the marker text is carried");
        }
        other => panic!("expected a syntax error, got {:?}", other),
    }
}

#[test]
fn test_start_marker_also_classifies() {
    let stderr = b"No @startuml/@enduml found".to_vec();
    let r = classify_output(ProcessExit::Exited(200), Vec::new(), &stderr);
    assert!(matches!(r, Err(PlantUmlError::SyntaxError(_))));
}

#[test]
fn test_generic_process_failure() {
    let stderr = b"java.lang.OutOfMemoryError".to_vec();
    let r = classify_output(ProcessExit::Exited(3), Vec::new(), &stderr);
    match r {
        Err(PlantUmlError::ProcessFailed { code, stderr }) => {
            assert_eq!(code, 3);
            assert!(stderr.contains("OutOfMemoryError"));
        }
        other => panic!("expected a process failure, got {:?}", other),
    }
}

#[test]
fn test_signal_termination() {
    let r = classify_output(ProcessExit::Signaled, Vec::new(), &b"killed".to_vec());
    assert_eq!(r, Err(PlantUmlError::ProcessSignaled));
}

#[test]
fn test_signal_with_marker_is_syntax_error() {
    let stderr = b"Syntax Error in line 3".to_vec();
    let r = classify_output(ProcessExit::Signaled, Vec::new(), &stderr);
    assert!(matches!(r, Err(PlantUmlError::SyntaxError(_))));
}

#[test]
fn test_lossy_error_text() {
    // Invalid bytes on the error stream are decoded lossily, not dropped.
    let stderr = vec![0x62, 0x6f, 0x6f, 0x6d, 0xff];
    let r = classify_output(ProcessExit::Exited(5), Vec::new(), &stderr);
    match r {
        Err(PlantUmlError::ProcessFailed { code, stderr }) => {
            assert_eq!(code, 5);
            assert!(stderr.contains("boom"));
            assert!(stderr.contains('\u{FFFD}'));
        }
        other => panic!("expected a process failure, got {:?}", other),
    }
}
