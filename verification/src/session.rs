use vstd::prelude::*;

use crate::errors::CompileError;
use vstd::string::StrSliceExecFns;
use vstd::utf8::encode_utf8;

verus! {

/// The source the editor opens with.
pub open spec fn default_source_text() -> Seq<char> {
    "int main() {\n    return 0;\n}"@
}

/// What the buffer holds after a load: the loaded text when the load
/// succeeded, the previous buffer untouched when it failed.
pub open spec fn buffer_after_load(prev: Seq<char>, loaded: Option<Seq<char>>) -> Seq<char> {
    match loaded {
        Some(text) => text,
        None => prev,
    }
}

/// What the stored disassembly holds after a compile: the new text when the
/// compile succeeded — replaced whole, never merged — and the previous text
/// untouched when it failed.
pub open spec fn disassembly_after_compile(prev: Seq<char>, outcome: Option<Seq<char>>) -> Seq<char> {
    match outcome {
        Some(text) => text,
        None => prev,
    }
}

/// The interactive state of the editor: the source buffer, the last
/// successful disassembly text, and whether the user asked to quit. Each user
/// gesture becomes one method call; file and process work happens outside and
/// only its result is applied here, so no failure ever clears what the user
/// already has.
pub struct EditorSession {
    code: String,
    code_output: String,
    quit_requested: bool,
}

impl EditorSession {
    /// The source buffer.
    pub closed spec fn source(&self) -> Seq<char> {
        self.code@
    }

    /// The last successful disassembly text; empty until a compile succeeds.
    pub closed spec fn disassembly(&self) -> Seq<char> {
        self.code_output@
    }

    /// Whether the user asked to end the session.
    pub closed spec fn quit(&self) -> bool {
        self.quit_requested
    }

    pub fn new() -> (s: Self)
        ensures
            s.source() == default_source_text(),
            s.disassembly() == Seq::<char>::empty(),
            !s.quit(),
    {
        EditorSession {
            code: "int main() {\n    return 0;\n}".to_owned(),
            code_output: String::new(),
            quit_requested: false,
        }
    }

    /// Replace the buffer with the text the user edited this frame.
    pub fn set_source(&mut self, text: String)
        ensures
            final(self).source() == text@,
            final(self).disassembly() == old(self).disassembly(),
            final(self).quit() == old(self).quit(),
    {
        self.code = text;
    }

    /// Load: apply the result of reading a file chosen by the user. On
    /// success the buffer is replaced with the loaded text; on failure the
    /// buffer — and everything else — is left exactly as it was, and the
    /// failure is surfaced as an `IoError`.
    pub fn apply_load(&mut self, loaded: Result<String, String>) -> (r: Result<(), CompileError>)
        ensures
            final(self).source() == buffer_after_load(
                old(self).source(),
                match loaded {
                    Ok(text) => Some(text@),
                    Err(_) => None,
                },
            ),
            final(self).disassembly() == old(self).disassembly(),
            final(self).quit() == old(self).quit(),
            loaded matches Ok(_) ==> r is Ok,
            loaded matches Err(cause) ==> {
                &&& *final(self) == *old(self)
                &&& r matches Err(e) && (e matches CompileError::IoError { cause: c } && c@
                    == cause@)
            },
    {
        match loaded {
            Ok(text) => {
                self.code = text;
                Ok(())
            },
            Err(cause) => Err(CompileError::IoError { cause }),
        }
    }

    /// Compile: apply the outcome of a preview compile. On success the stored
    /// disassembly is replaced whole with the new text; on failure it — and
    /// the buffer — is left exactly as it was, and the error is surfaced.
    pub fn apply_compile(&mut self, outcome: Result<String, CompileError>) -> (r: Result<
        (),
        CompileError,
    >)
        ensures
            final(self).disassembly() == disassembly_after_compile(
                old(self).disassembly(),
                match outcome {
                    Ok(text) => Some(text@),
                    Err(_) => None,
                },
            ),
            final(self).source() == old(self).source(),
            final(self).quit() == old(self).quit(),
            outcome matches Ok(_) ==> r is Ok,
            outcome matches Err(e) ==> {
                &&& *final(self) == *old(self)
                &&& r matches Err(e2) && e2 == e
            },
    {
        match outcome {
            Ok(text) => {
                self.code_output = text;
                Ok(())
            },
            Err(e) => Err(e),
        }
    }

    /// Quit: remember that the user asked to end the session.
    pub fn request_quit(&mut self)
        ensures
            final(self).quit(),
            final(self).source() == old(self).source(),
            final(self).disassembly() == old(self).disassembly(),
    {
        self.quit_requested = true;
    }

    /// Whether the user asked to end the session.
    pub fn wants_quit(&self) -> (q: bool)
        ensures
            q == self.quit(),
    {
        self.quit_requested
    }

    /// A copy of the buffer, for display or for compiling.
    pub fn source_text(&self) -> (t: String)
        ensures
            t@ == self.source(),
    {
        self.code.clone()
    }

    /// SaveSource: the bytes to write, the buffer's UTF-8 encoding verbatim.
    pub fn source_bytes(&self) -> (b: Vec<u8>)
        ensures
            b@ == encode_utf8(self.source()),
    {
        self.code.as_str().as_bytes_vec()
    }

    /// A copy of the stored disassembly text.
    pub fn disassembly_text(&self) -> (t: String)
        ensures
            t@ == self.disassembly(),
    {
        self.code_output.clone()
    }

    /// SaveDisassembly: the bytes to write, the stored disassembly's UTF-8
    /// encoding verbatim.
    pub fn disassembly_bytes(&self) -> (b: Vec<u8>)
        ensures
            b@ == encode_utf8(self.disassembly()),
    {
        self.code_output.as_str().as_bytes_vec()
    }
}

/// Law: a buffer saved and loaded back through disk is reproduced exactly.
/// Saving writes the buffer's UTF-8 bytes verbatim; loading those same bytes
/// decodes them and replaces whatever the buffer held — and what it then holds
/// is the original buffer, character for character.
pub proof fn lemma_save_then_load_restores_buffer(buffer: Seq<char>, other: Seq<char>)
    ensures
        vstd::utf8::valid_utf8(encode_utf8(buffer)),
        buffer_after_load(other, Some(vstd::utf8::decode_utf8(encode_utf8(buffer)))) == buffer,
{
    crate::text::lemma_text_bytes_round_trip(buffer);
}

/// Law: a failed load changes nothing — the buffer after it is the buffer
/// before it, whatever both held.
pub proof fn lemma_failed_load_keeps_buffer(prev: Seq<char>)
    ensures
        buffer_after_load(prev, None) == prev,
{
}

/// Law: after two compiles in a row, the stored disassembly reflects only the
/// later one — nothing of the earlier result, or of anything before it,
/// leaks through.
pub proof fn lemma_latest_compile_wins(initial: Seq<char>, first: Seq<char>, second: Seq<char>)
    ensures
        disassembly_after_compile(disassembly_after_compile(initial, Some(first)), Some(second))
            == second,
{
}

} // verus!
