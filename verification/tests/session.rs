use wasm_editor::CompileError;
use wasm_editor::EditorSession;

#[test]
fn new_session_defaults() {
    let s = EditorSession::new();
    assert_eq!(s.source_text(), "int main() {\n    return 0;\n}");
    assert_eq!(s.disassembly_text(), "");
}

#[test]
fn set_source_replaces_buffer() {
    let mut s = EditorSession::new();
    s.set_source("int f() { return 1; }".to_string());
    assert_eq!(s.source_text(), "int f() { return 1; }");
    assert_eq!(s.disassembly_text(), "");
}

#[test]
fn successful_load_replaces_buffer() {
    let mut s = EditorSession::new();
    let r = s.apply_load(Ok("int g();".to_string()));
    assert!(r.is_ok());
    assert_eq!(s.source_text(), "int g();");
}

#[test]
fn failed_load_keeps_buffer() {
    let mut s = EditorSession::new();
    s.set_source("int h() { return 2; }".to_string());
    let before = s.source_text();
    let before_output = s.disassembly_text();
    let r = s.apply_load(Err("no such file".to_string()));
    assert_eq!(s.source_text(), before);
    assert_eq!(s.disassembly_text(), before_output);
    match r {
        Err(CompileError::IoError { cause }) => assert_eq!(cause, "no such file"),
        other => panic!("expected IoError, got {:?}", other),
    }
}

#[test]
fn successful_compile_replaces_disassembly() {
    let mut s = EditorSession::new();
    let r = s.apply_compile(Ok("(module)".to_string()));
    assert!(r.is_ok());
    assert_eq!(s.disassembly_text(), "(module)");
    assert_eq!(s.source_text(), "int main() {\n    return 0;\n}");
}

#[test]
fn failed_compile_keeps_disassembly() {
    let mut s = EditorSession::new();
    s.apply_compile(Ok("(module)".to_string())).unwrap();
    let r = s.apply_compile(Err(CompileError::EncodingError));
    assert_eq!(s.disassembly_text(), "(module)");
    assert!(matches!(r, Err(CompileError::EncodingError)));
}

#[test]
fn latest_compile_wins() {
    let mut s = EditorSession::new();
    s.apply_compile(Ok("(module first)".to_string())).unwrap();
    s.apply_compile(Ok("(module second)".to_string())).unwrap();
    assert_eq!(s.disassembly_text(), "(module second)");
}

#[test]
fn quit_is_remembered() {
    let mut s = EditorSession::new();
    assert!(!s.wants_quit());
    s.request_quit();
    assert!(s.wants_quit());
    assert_eq!(s.source_text(), "int main() {\n    return 0;\n}");
}

#[test]
fn source_bytes_are_utf8_of_buffer() {
    let mut s = EditorSession::new();
    s.set_source("int x; // caf\u{e9}".to_string());
    assert_eq!(s.source_bytes(), "int x; // caf\u{e9}".as_bytes().to_vec());
}

#[test]
fn disassembly_bytes_are_utf8_of_text() {
    let mut s = EditorSession::new();
    s.apply_compile(Ok("(module)".to_string())).unwrap();
    assert_eq!(s.disassembly_bytes(), b"(module)".to_vec());
}

#[test]
fn save_then_load_round_trips_through_disk() {
    let mut s = EditorSession::new();
    s.set_source("int caf\u{e9}() {\n    return 42;\n}".to_string());
    let original = s.source_text();

    // SaveSource: write the buffer's bytes to a file on disk.
    let mut file = tempfile::NamedTempFile::new().unwrap();
    std::io::Write::write_all(&mut file, &s.source_bytes()).unwrap();

    // Disturb the buffer, then Load the saved file back.
    s.set_source(String::new());
    let mut reader = file.reopen().unwrap();
    let mut bytes = Vec::new();
    std::io::Read::read_to_end(&mut reader, &mut bytes).unwrap();
    let text = wasm_editor::decode_text(bytes).unwrap();
    s.apply_load(Ok(text)).unwrap();

    assert_eq!(s.source_text(), original);
}

#[test]
fn saved_disassembly_reloads_byte_identical() {
    let mut s = EditorSession::new();
    s.apply_compile(Ok("(module\n  (func $main (result i32)\n    i32.const 0))\n".to_string()))
        .unwrap();
    let captured = s.disassembly_bytes();

    // SaveDisassembly to disk, then load the file back as source.
    let mut file = tempfile::NamedTempFile::new().unwrap();
    std::io::Write::write_all(&mut file, &captured).unwrap();
    let mut reader = file.reopen().unwrap();
    let mut bytes = Vec::new();
    std::io::Read::read_to_end(&mut reader, &mut bytes).unwrap();
    assert_eq!(bytes, captured);
    let text = wasm_editor::decode_text(bytes).unwrap();
    s.apply_load(Ok(text)).unwrap();
    assert_eq!(s.source_bytes(), captured);
}
