//! Invocation of the extracted runtime: the argument list handed to the
//! runtime executable, the phased round trip against the child process,
//! and the classification of its outcome into rendered output or a
//! failure.

use vstd::prelude::*;
use vstd::string::*;

use crate::error::PlantUmlError;
use crate::text::{contains_seq, str_contains};

verus! {

/// How a child process ended: with an exit code, or terminated by a
/// signal, which leaves no code to report.
#[derive(Clone, Copy, Debug, PartialEq, Eq, Structural)]
pub enum ProcessExit {
    Exited(i32),
    Signaled,
}

/// The arguments the runtime executable is invoked with: run the
/// application archive in single-shot pipe mode producing SVG text.
pub fn invocation_args(jar_path: &str) -> (r: Vec<String>)
    ensures
        r@.len() == 6,
        r@[0]@ == "-jar"@,
        r@[1]@ == jar_path@,
        r@[2]@ == "-pipe"@,
        r@[3]@ == "-tsvg"@,
        r@[4]@ == "-charset"@,
        r@[5]@ == "UTF-8"@,
{
    let mut v: Vec<String> = Vec::new();
    v.push(String::from_str("-jar"));
    v.push(jar_path.to_owned());
    v.push(String::from_str("-pipe"));
    v.push(String::from_str("-tsvg"));
    v.push(String::from_str("-charset"));
    v.push(String::from_str("UTF-8"));
    v
}

/// Relies on String::from_utf8: it succeeds exactly on valid UTF-8 input
/// and then decodes it; on failure the error describes the offence.
#[verifier::external_body]
fn decode_utf8_bytes(bytes: Vec<u8>) -> (r: Result<String, String>)
    ensures
        match r {
            Ok(s) => vstd::utf8::valid_utf8(bytes@) && s@ == vstd::utf8::decode_utf8(bytes@),
            Err(_) => !vstd::utf8::valid_utf8(bytes@),
        },
{
    String::from_utf8(bytes).map_err(|e| e.to_string())
}

/// The text that lossy decoding yields for the given bytes: a function of
/// the bytes alone.
pub uninterp spec fn lossy_text_of(bytes: Seq<u8>) -> Seq<char>;

/// Relies on String::from_utf8_lossy: the result depends on the bytes
/// alone, and valid UTF-8 decodes to itself.
#[verifier::external_body]
fn decode_utf8_lossy(bytes: &Vec<u8>) -> (r: String)
    ensures
        r@ == lossy_text_of(bytes@),
        vstd::utf8::valid_utf8(bytes@) ==> r@ == vstd::utf8::decode_utf8(bytes@),
{
    String::from_utf8_lossy(bytes.as_slice()).into_owned()
}

/// Whether diagnostic text carries the upstream renderer's recognizable
/// syntax-error markers.
pub open spec fn syntax_error_marker(text: Seq<char>) -> bool {
    contains_seq(text, "Syntax Error"@) || contains_seq(text, "@startuml"@)
}

/// Whether `text` carries a recognizable syntax-error marker.
pub fn has_syntax_error_marker(text: &str) -> (r: bool)
    ensures
        r == syntax_error_marker(text@),
{
    str_contains(text, "Syntax Error") || str_contains(text, "@startuml")
}

/// Classify a finished invocation: a zero exit yields the output stream
/// decoded as text (invalid text is its own failure); a non-zero exit or
/// a signal yields a syntax error when the error stream carries the
/// upstream marker, else a process failure with the code and the error
/// text, or the distinct signal failure when no code exists.
pub fn classify_output(exit: ProcessExit, stdout: Vec<u8>, stderr: &Vec<u8>) -> (r: Result<
    String,
    PlantUmlError,
>)
    ensures
        ({
            let err_text = lossy_text_of(stderr@);
            match exit {
                ProcessExit::Exited(code) => {
                    if code == 0 {
                        &&& (vstd::utf8::valid_utf8(stdout@) ==> (r matches Ok(s) && s@
                            == vstd::utf8::decode_utf8(stdout@)))
                        &&& (!vstd::utf8::valid_utf8(stdout@) ==> (r matches Err(e)
                            && e is InvalidUtf8))
                    } else if syntax_error_marker(err_text) {
                        r matches Err(e) && e matches PlantUmlError::SyntaxError(t) && t@
                            == err_text
                    } else {
                        r matches Err(e) && e matches PlantUmlError::ProcessFailed {
                            code: c,
                            stderr: t,
                        } && c == code && t@ == err_text
                    }
                },
                ProcessExit::Signaled => {
                    if syntax_error_marker(err_text) {
                        r matches Err(e) && e matches PlantUmlError::SyntaxError(t) && t@
                            == err_text
                    } else {
                        r matches Err(e) && e == PlantUmlError::ProcessSignaled
                    }
                },
            }
        }),
{
    match exit {
        ProcessExit::Exited(code) => {
            if code == 0 {
                match decode_utf8_bytes(stdout) {
                    Ok(s) => Ok(s),
                    Err(m) => Err(PlantUmlError::InvalidUtf8(m)),
                }
            } else {
                let text = decode_utf8_lossy(stderr);
                if has_syntax_error_marker(text.as_str()) {
                    Err(PlantUmlError::SyntaxError(text))
                } else {
                    Err(PlantUmlError::ProcessFailed { code, stderr: text })
                }
            }
        },
        ProcessExit::Signaled => {
            let text = decode_utf8_lossy(stderr);
            if has_syntax_error_marker(text.as_str()) {
                Err(PlantUmlError::SyntaxError(text))
            } else {
                Err(PlantUmlError::ProcessSignaled)
            }
        },
    }
}

#[verifier::external_type_specification]
#[verifier::external_body]
pub struct ExPipeReader(os_pipe::PipeReader);

#[verifier::external_type_specification]
#[verifier::external_body]
pub struct ExPipeWriter(os_pipe::PipeWriter);

#[verifier::external_type_specification]
#[verifier::external_body]
pub struct ExHandle(duct::Handle);

/// Relies on os_pipe::pipe: one anonymous pipe, its read end handed to
/// the child and its write end kept for the diagram text.
#[verifier::external_body]
fn open_input_pipe() -> Result<(os_pipe::PipeReader, os_pipe::PipeWriter), String> {
    os_pipe::pipe().map_err(|e| e.to_string())
}

/// Relies on duct::cmd with stdin_file, stdout_capture, stderr_capture
/// and unchecked, started but not awaited: the child process begins with
/// the pipe's read end as its input stream and both output streams
/// captured by reader threads.
#[verifier::external_body]
fn spawn_renderer(program: &str, args: &Vec<String>, stdin: os_pipe::PipeReader) -> Result<
    duct::Handle,
    String,
> {
    duct::cmd(program, args.iter().map(|a| a.as_str()))
        .stdin_file(stdin)
        .stdout_capture()
        .stderr_capture()
        .unchecked()
        .start()
        .map_err(|e| e.to_string())
}

/// Relies on the pipe write end's std::io::Write::write_all: the whole
/// input is written to the child's input stream, and the stream is closed
/// when the write end goes out of scope.
#[verifier::external_body]
fn write_child_input(writer: os_pipe::PipeWriter, input: &str) -> Result<(), String> {
    let mut writer = writer;
    std::io::Write::write_all(&mut writer, input.as_bytes()).map_err(|e| e.to_string())
}

/// Relies on duct::Handle::into_output: block until the child finishes,
/// with both captured streams complete; the exit status is converted by
/// variant, a missing code meaning termination by signal. What comes back
/// depends on the machine and on the child, so nothing is assumed of it.
#[verifier::external_body]
fn wait_renderer(handle: duct::Handle) -> Result<(ProcessExit, Vec<u8>, Vec<u8>), String> {
    let out = handle.into_output().map_err(|e| e.to_string())?;
    let exit = match out.status.code() {
        Some(c) => ProcessExit::Exited(c),
        None => ProcessExit::Signaled,
    };
    Ok((exit, out.stdout, out.stderr))
}

/// Run the renderer once over the given diagram text: resolve the bundle
/// paths for this build's platform, start the runtime executable on the
/// application archive in single-shot pipe mode, write the text to its
/// input stream, and classify the outcome. The cache directory is
/// expected to be populated; the surrounding program extracts the bundle
/// beforehand, and a missing runtime surfaces as a spawn failure. Every
/// failure is an invocation failure — a failed write to the child's input
/// stream is returned as the stdin-write kind — and a syntax-error
/// failure always carries the recognized marker in its text.
pub fn execute_pipe(input: &str) -> (r: Result<String, PlantUmlError>)
    ensures
        r matches Err(e) ==> (e is ProcessSpawn || e is StdinWrite || e is SyntaxError
            || e is ProcessFailed || e is ProcessSignaled || e is InvalidUtf8),
        r matches Err(e) ==> (e matches PlantUmlError::SyntaxError(t)
            ==> syntax_error_marker(t@)),
{
    let target = match crate::builder::detected_platform() {
        Option::Some(t) => t,
        Option::None => {
            return Err(PlantUmlError::ProcessSpawn(String::from_str("unsupported platform")));
        },
    };
    let dir = crate::paths::locate_cache_dir(crate::paths::VERSION);
    let paths = crate::paths::get_bundle_paths(dir.as_str(), target);
    let args = invocation_args(paths.plantuml_jar.as_str());
    let (reader, writer) = match open_input_pipe() {
        Ok(p) => p,
        Err(m) => {
            return Err(PlantUmlError::ProcessSpawn(m));
        },
    };
    let handle = match spawn_renderer(paths.java_exe.as_str(), &args, reader) {
        Ok(h) => h,
        Err(m) => {
            return Err(PlantUmlError::ProcessSpawn(m));
        },
    };
    match write_child_input(writer, input) {
        Ok(_) => {},
        Err(m) => {
            return Err(PlantUmlError::StdinWrite(m));
        },
    }
    match wait_renderer(handle) {
        Ok((exit, stdout, stderr)) => classify_output(exit, stdout, &stderr),
        Err(m) => Err(PlantUmlError::ProcessSpawn(m)),
    }
}

/// Render diagram text to SVG text: the direct composition over one
/// renderer invocation.
pub fn render(plantuml: &str) -> (r: Result<String, PlantUmlError>)
    ensures
        r matches Err(e) ==> (e is ProcessSpawn || e is StdinWrite || e is SyntaxError
            || e is ProcessFailed || e is ProcessSignaled || e is InvalidUtf8),
        r matches Err(e) ==> (e matches PlantUmlError::SyntaxError(t)
            ==> syntax_error_marker(t@)),
{
    execute_pipe(plantuml)
}

} // verus!
