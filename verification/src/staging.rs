use vstd::prelude::*;

use crate::errors::CompileError;

verus! {

/// Holder for the temporary-file handle. `tempfile::NamedTempFile` carries a
/// generic file parameter whose default Verus cannot see, so the handle is
/// kept opaque; Verus learns of it only what the wrappers below state.
#[verifier::external_body]
struct TempHandle {
    handle: tempfile::NamedTempFile,
}

/// Relies on tempfile::NamedTempFile::new: creates a fresh file with a unique
/// name in the system temporary directory, opened for writing; the file is
/// removed from disk when the returned handle is dropped.
#[verifier::external_body]
fn temp_file_new() -> (r: Result<TempHandle, String>) {
    match tempfile::NamedTempFile::new() {
        Ok(handle) => Ok(TempHandle { handle }),
        Err(e) => Err(format!("{}", e)),
    }
}

/// Relies on std::io::Write::write_all (here writing to the temporary file):
/// on `Ok` the whole buffer has been written; a partial write is reported as
/// an error, never as success.
#[verifier::external_body]
fn temp_file_write_all(f: &mut TempHandle, bytes: &[u8]) -> (r: Result<(), String>) {
    match std::io::Write::write_all(&mut f.handle, bytes) {
        Ok(()) => Ok(()),
        Err(e) => Err(format!("{}", e)),
    }
}

/// Relies on tempfile::NamedTempFile::path, which returns the path the file
/// was created under, and std::path::Path::to_str, which is `Some` exactly
/// when that path is valid UTF-8.
#[verifier::external_body]
fn temp_file_path_string(f: &TempHandle) -> (r: Option<String>) {
    match f.handle.path().to_str() {
        Some(s) => Some(s.to_string()),
        None => None,
    }
}

/// A staged copy of the source buffer: a uniquely named temporary file holding
/// the buffer's UTF-8 bytes, for external programs to read by path. The file
/// lives exactly as long as this value: dropping it removes the file, on every
/// path, success or failure.
pub struct StagedSource {
    #[allow(dead_code)]
    handle: TempHandle,
    path: String,
}

impl StagedSource {
    /// The path of the staged file, as handed to the external programs.
    pub closed spec fn path_view(&self) -> Seq<char> {
        self.path@
    }

    /// Write `text`'s UTF-8 bytes in full to a fresh uniquely named temporary
    /// file. Any filesystem failure — creation, an incomplete write, a path
    /// that is not text — is an `IoError`; nothing is staged then.
    pub fn create(text: &str) -> (r: Result<StagedSource, CompileError>)
        ensures
            r matches Err(e) ==> e matches CompileError::IoError { .. },
    {
        let mut handle = match temp_file_new() {
            Ok(f) => f,
            Err(cause) => {
                return Err(CompileError::IoError { cause });
            },
        };
        match temp_file_write_all(&mut handle, text.as_bytes()) {
            Ok(()) => {},
            Err(cause) => {
                return Err(CompileError::IoError { cause });
            },
        }
        let path = match temp_file_path_string(&handle) {
            Some(p) => p,
            None => {
                return Err(CompileError::IoError {
                    cause: "temporary file path is not valid UTF-8".to_owned(),
                });
            },
        };
        Ok(StagedSource { handle, path })
    }

    /// The staged file's path.
    pub fn path(&self) -> (p: &str)
        ensures
            p@ == self.path_view(),
    {
        self.path.as_str()
    }
}

} // verus!
