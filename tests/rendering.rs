use qpipe::{hex_preview, render_line, OutputMode, RenderError};

#[test]
fn hex_preview_short_and_long() {
    assert_eq!(hex_preview(&[0xde, 0xad, 0xbe, 0xef], 32), "de ad be ef");
    assert_eq!(hex_preview(&[0x00, 0x0f, 0xa0], 2), "00 0f \u{2026}");
    assert_eq!(hex_preview(&[], 4), "");
    assert_eq!(hex_preview(&[1, 2], 0), " \u{2026}");
}

#[test]
fn base64_lines() {
    assert_eq!(render_line(OutputMode::Base64, b"hello"), Ok(b"aGVsbG8=\n".to_vec()));
    assert_eq!(render_line(OutputMode::Base64, b""), Ok(b"\n".to_vec()));
    assert_eq!(render_line(OutputMode::Base64, &[0xff, 0xfe]), Ok(b"//4=\n".to_vec()));
}

#[test]
fn jsonl_lines() {
    assert_eq!(render_line(OutputMode::Jsonl, b"{\"a\":1}"), Ok(b"{\"a\":1}\n".to_vec()));
    assert_eq!(render_line(OutputMode::Jsonl, "caf\u{e9}".as_bytes()), Ok("caf\u{e9}\n".as_bytes().to_vec()));
    assert_eq!(render_line(OutputMode::Jsonl, &[0xc3, 0x28]), Err(RenderError::NotUtf8));
    assert_eq!(render_line(OutputMode::Jsonl, b"a\nb"), Err(RenderError::HasNewline));
}
