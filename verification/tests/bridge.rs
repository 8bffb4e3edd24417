use ohos_deviceinfo::convert_to_rust_str;

fn answer(buffer: &'static [u8]) -> Option<&'static [u8]> {
    Some(buffer)
}

#[test]
fn null_answer_is_absent() {
    assert_eq!(convert_to_rust_str(None), None);
}

#[test]
fn terminated_text_is_returned_exactly() {
    assert_eq!(convert_to_rust_str(answer(b"OpenHarmony\0")), Some("OpenHarmony"));
    assert_eq!(convert_to_rust_str(answer(b"HUAWEI Mate 60\0")), Some("HUAWEI Mate 60"));
    assert_eq!(convert_to_rust_str(answer(b"x\0")), Some("x"));
}

#[test]
fn text_is_not_normalized() {
    assert_eq!(convert_to_rust_str(answer(b" Mixed Case\t\0")), Some(" Mixed Case\t"));
}

#[test]
fn buffer_without_terminator_is_read_to_its_end() {
    assert_eq!(convert_to_rust_str(answer(b"arm64-v8a")), Some("arm64-v8a"));
}

#[test]
fn lone_terminator_is_absent() {
    assert_eq!(convert_to_rust_str(answer(b"\0")), None);
}

#[test]
fn empty_buffer_is_absent() {
    assert_eq!(convert_to_rust_str(answer(b"")), None);
}

#[test]
fn leading_terminator_hides_what_follows() {
    assert_eq!(convert_to_rust_str(answer(b"\0hidden\0")), None);
}

#[test]
fn bytes_after_the_terminator_are_ignored() {
    assert_eq!(convert_to_rust_str(answer(b"ab\0cd\0")), Some("ab"));
    assert_eq!(convert_to_rust_str(answer(b"ok\0\xff\xfe")), Some("ok"));
}

#[test]
fn invalid_utf8_is_absent() {
    assert_eq!(convert_to_rust_str(answer(b"\xff\xfe\0")), None);
    assert_eq!(convert_to_rust_str(answer(b"abc\x80\0")), None);
    assert_eq!(convert_to_rust_str(answer(b"\xc3")), None);
    assert_eq!(convert_to_rust_str(answer(b"\xed\xa0\x80\0")), None);
    assert_eq!(convert_to_rust_str(answer(b"\xc0\x80\0")), None);
}

#[test]
fn truncated_character_before_terminator_is_absent() {
    assert_eq!(convert_to_rust_str(answer(b"\xe8\xae\0\xbe")), None);
}

#[test]
fn multibyte_text_is_returned_exactly() {
    let text = convert_to_rust_str(answer("设备 é 😀\0".as_bytes()));
    assert_eq!(text, Some("设备 é 😀"));
    assert_eq!(text.unwrap().chars().count(), 6);
}

#[test]
fn returned_text_borrows_the_buffer() {
    let buffer: &'static [u8] = b"static text\0";
    let text = convert_to_rust_str(Some(buffer)).unwrap();
    assert_eq!(text.as_ptr(), buffer.as_ptr());
    assert_eq!(text.len(), buffer.len() - 1);
    assert_eq!(text.as_bytes(), &buffer[..buffer.len() - 1]);
}

#[test]
fn returned_text_is_never_empty() {
    let buffers: [&'static [u8]; 6] = [b"", b"\0", b"\0\0", b"a\0", b"\xff", b"ab"];
    for buffer in buffers {
        if let Some(text) = convert_to_rust_str(Some(buffer)) {
            assert!(!text.is_empty());
            assert!(!text.contains('\0'));
        }
    }
}

#[test]
fn converting_again_changes_nothing() {
    let first = convert_to_rust_str(answer(b"Release\0trailing")).unwrap();
    let second = convert_to_rust_str(Some(first.as_bytes()));
    assert_eq!(second, Some(first));
    assert_eq!(second, Some("Release"));
}
