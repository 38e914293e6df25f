use sctrace::render::RemoteBuffer;
use sctrace::render::decimal_string;
use sctrace::render::escape_bytes;
use sctrace::render::render_buffer_report;
use sctrace::render::render_report;

#[test]
fn decimal_rendering() {
    assert_eq!(decimal_string(0), "0");
    assert_eq!(decimal_string(7), "7");
    assert_eq!(decimal_string(10), "10");
    assert_eq!(decimal_string(12345), "12345");
    assert_eq!(decimal_string(u64::MAX), "18446744073709551615");
}

#[test]
fn printable_bytes_pass_through() {
    assert_eq!(escape_bytes(&b"hello world".to_vec()), "hello world");
    assert_eq!(escape_bytes(&b" ~".to_vec()), " ~");
}

#[test]
fn special_bytes_are_escaped() {
    assert_eq!(escape_bytes(&b"\"".to_vec()), "\\\"");
    assert_eq!(escape_bytes(&b"\\".to_vec()), "\\\\");
    assert_eq!(escape_bytes(&b"\t".to_vec()), "\\t");
    assert_eq!(escape_bytes(&b"\n".to_vec()), "\\n");
    assert_eq!(escape_bytes(&b"\r".to_vec()), "\\r");
    assert_eq!(escape_bytes(&vec![0u8]), "\\0");
}

#[test]
fn nonprintable_bytes_take_hex_escapes() {
    assert_eq!(escape_bytes(&vec![0x01u8]), "\\u{1}");
    assert_eq!(escape_bytes(&vec![0x0fu8]), "\\u{f}");
    assert_eq!(escape_bytes(&vec![0x10u8]), "\\u{10}");
    assert_eq!(escape_bytes(&vec![0x7fu8]), "\\u{7f}");
    assert_eq!(escape_bytes(&vec![0xffu8]), "\\u{ff}");
}

#[test]
fn report_line_shape() {
    assert_eq!(render_report(1, &b"hello".to_vec()), "FD: 1: \"hello\"");
    assert_eq!(render_report(2, &Vec::new()), "FD: 2: \"\"");
    assert_eq!(
        render_report(10, &b"a\nb\"c".to_vec()),
        "FD: 10: \"a\\nb\\\"c\""
    );
}

#[test]
fn complete_buffer_reports_plainly() {
    let buffer = RemoteBuffer { bytes: b"he".to_vec(), complete: true };
    assert_eq!(render_buffer_report(1, &buffer), "FD: 1: \"he\"");
}

#[test]
fn incomplete_buffer_is_marked_truncated() {
    let buffer = RemoteBuffer { bytes: b"he".to_vec(), complete: false };
    assert_eq!(render_buffer_report(1, &buffer), "FD: 1: \"he\" (truncated)");
}
