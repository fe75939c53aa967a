//! Classified failures of the bundle lifecycle and of renderer invocations.

use vstd::prelude::*;

verus! {

/// Everything that can go wrong between resolving the bundle and handing
/// back rendered output. Each variant carries the context a caller needs to
/// display the failure: the offending path, the exit code, or the captured
/// diagnostic text.
#[derive(Debug, Clone, PartialEq, Eq)]
pub enum PlantUmlError {
    /// A filesystem or archive failure while extracting the bundle.
    BinaryExtraction(String),
    /// The renderer process exited with a non-zero code; carries the code
    /// and the captured error-stream text.
    ProcessFailed { code: i32, stderr: String },
    /// The renderer process was terminated by a signal, so no exit code
    /// exists to report.
    ProcessSignaled,
    /// The runtime executable could not be started.
    ProcessSpawn(String),
    /// Writing the diagram text to the child's input stream failed.
    StdinWrite(String),
    /// The input file could not be read; carries the offending path.
    InputRead { path: String, detail: String },
    /// The output file could not be written; carries the offending path.
    OutputWrite { path: String, detail: String },
    /// The renderer's output stream was not valid UTF-8 text; carries
    /// the decoder's description of the offence.
    InvalidUtf8(String),
    /// The renderer reported a diagram syntax error; carries the captured
    /// error-stream text, which names the error.
    SyntaxError(String),
}

} // verus!
