use text_editor::input::Bytes;
use text_editor::style::{AnsiBuilder, Color, Style, Weight};

#[test]
fn style_builder_diffs_and_resets() {
    let mut ansi = AnsiBuilder::default();
    ansi.write_raw("raw\r\n");
    ansi.write_str("str\r\n"); // control characters stripped
    ansi.write_style(Style { fg: Color::Magenta, ..Style::default() });
    ansi.write_style(Style { fg: Color::Magenta, bg: Color::Black, ..Style::default() });
    ansi.write_str("x");
    let out = ansi.finish();
    // One foreground code, then one background code, then the final
    // reset of both.
    assert_eq!(out, "raw\r\nstr\u{1b}[35m\u{1b}[40mx\u{1b}[39m\u{1b}[49m");
}

#[test]
fn style_builder_weight_and_underline_codes() {
    let mut ansi = AnsiBuilder::default();
    ansi.write_style(Style { weight: Weight::Bold, underline: true, ..Style::default() });
    ansi.write_style(Style { weight: Weight::Dim, underline: true, ..Style::default() });
    let out = ansi.finish();
    assert_eq!(out, "\u{1b}[1m\u{1b}[4m\u{1b}[2m\u{1b}[22m\u{1b}[24m");
}

#[test]
fn color_codes_match_palette() {
    assert_eq!(Color::Black.code(), 0);
    assert_eq!(Color::Red.code(), 1);
    assert_eq!(Color::Green.code(), 2);
    assert_eq!(Color::Yellow.code(), 3);
    assert_eq!(Color::Blue.code(), 4);
    assert_eq!(Color::Magenta.code(), 5);
    assert_eq!(Color::Cyan.code(), 6);
    assert_eq!(Color::White.code(), 7);
    assert_eq!(Color::Default.code(), 9);
}

#[test]
fn bytes_chunk_exposes_valid_prefix() {
    let mut b = Bytes::default();
    assert!(b.is_empty());
    assert_eq!(b.as_slice(), &[] as &[u8]);

    b.buf[0] = 10;
    b.buf[1] = 20;
    b.len = 2;
    assert_eq!(b.len(), 2);
    assert!(!b.is_empty());
    assert_eq!(b.as_slice(), &[10, 20]);
}
