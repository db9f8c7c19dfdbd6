use vstd::prelude::*;

verus! {

/// A failure of one compile-or-disassemble invocation. Every fallible step of
/// the pipeline reports one of these instead of aborting: a failed compile is
/// an expected, recoverable outcome.
#[derive(Debug)]
pub enum CompileError {
    /// A file could not be created, written or read in full.
    IoError { cause: String },
    /// An external program could not be started. `stage` is its position in
    /// the pipeline, counted from zero.
    SpawnError { stage: usize, cause: String },
    /// An external program started but reported failure. `exit_code` is
    /// `None` when the process ended without an exit code; `stderr` holds the
    /// diagnostic bytes it wrote.
    StageFailed { stage: usize, exit_code: Option<i32>, stderr: Vec<u8> },
    /// The captured output bytes are not valid UTF-8 text.
    EncodingError,
}

} // verus!
