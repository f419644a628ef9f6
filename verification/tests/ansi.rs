use text_editor::buffer::{Buffer, Cell};
use text_editor::style::{Color, Style, Weight};
use text_editor::term::ansi_builder::AnsiBuilder;
use text_editor::term::render::encode_buffer;

#[test]
fn my_test() {
    let mut ansi = AnsiBuilder::default();
    ansi.write_str("hello");
    ansi.write_newline();

    ansi.write_style(Style { fg: Color::Magenta, ..Style::default() });
    ansi.write_str("world\r\n");
    ansi.write_newline();

    ansi.write_style(Style { fg: Color::Blue, weight: Weight::Bold, ..Style::default() });
    ansi.write_str("boo!\r\n");
    ansi.write_newline();

    println!("{}", ansi.finish());
}

#[test]
fn builder_diffs_styles_field_by_field() {
    let mut ansi = AnsiBuilder::default();
    // The fresh builder homes and hides the cursor.
    let prefix = "\u{1b}[1;1H\u{1b}[?25l";

    // Same style as the default: nothing emitted.
    ansi.write_style(Style::default());
    // Foreground change alone: exactly one SGR code.
    ansi.write_style(Style { fg: Color::Red, ..Style::default() });
    // Same style again: nothing.
    ansi.write_style(Style { fg: Color::Red, ..Style::default() });
    ansi.write_char('x');
    let out = ansi.finish();
    // finish resets the style: foreground back to the default palette.
    assert_eq!(out, format!("{}\u{1b}[31mx\u{1b}[39m", prefix));
}

#[test]
fn builder_strips_control_characters() {
    let mut ansi = AnsiBuilder::default();
    ansi.write_str("a\u{7}b\r\nc");
    ansi.write_char('\t');
    ansi.write_char('d');
    let out = ansi.finish();
    assert_eq!(out, "\u{1b}[1;1H\u{1b}[?25labcd");
}

#[test]
fn builder_cursor_codes_are_diffed() {
    let mut ansi = AnsiBuilder::default();
    ansi.set_cursor_position(0, 0); // unchanged: nothing emitted
    ansi.set_cursor_position(4, 2); // "\x1b[3;5H" (1-indexed, row first)
    ansi.show_cursor(true);
    ansi.show_cursor(true); // unchanged: nothing
    let out = ansi.finish();
    assert_eq!(out, "\u{1b}[1;1H\u{1b}[?25l\u{1b}[3;5H\u{1b}[?25h");
}

#[test]
fn encoder_idempotent_on_unchanged_grid() {
    // A uniformly styled grid with a cursor.
    let style = Style { fg: Color::Cyan, ..Style::default() };
    let mut buf = Buffer::new(2, 2);
    buf.set(0, 0, Cell { c: 'h', style });
    buf.set(1, 0, Cell { c: 'i', style });
    buf.set(0, 1, Cell { c: '!', style });
    buf.set(1, 1, Cell { c: '?', style });
    buf.set_cursor(Some((1, 0)));

    let mut b = AnsiBuilder::default();
    encode_buffer(&mut b, &buf);
    let after_first = b.s.len();

    // Encoding the unchanged grid again emits the screen clear and the
    // literal content, but no style or cursor escape.
    encode_buffer(&mut b, &buf);
    let second: String = b.s[after_first..].iter().collect();
    assert_eq!(second, "\u{1b}[3Jhi\r\n!?");
}

#[test]
fn encoder_emits_styles_and_cursor_on_first_pass() {
    let style = Style { fg: Color::Cyan, ..Style::default() };
    let mut buf = Buffer::new(1, 1);
    buf.set(0, 0, Cell { c: 'z', style });
    buf.set_cursor(Some((0, 0)));

    let mut b = AnsiBuilder::default();
    encode_buffer(&mut b, &buf);
    let out: String = b.s.iter().collect();
    // Home+hide from the fresh builder, clear, foreground, content,
    // cursor position unchanged from home (suppressed), then show.
    assert_eq!(out, "\u{1b}[1;1H\u{1b}[?25l\u{1b}[3J\u{1b}[36mz\u{1b}[?25h");
}

#[test]
fn encoder_hides_cursor_for_cursorless_grid() {
    let buf = Buffer::new(1, 1);
    let mut b = AnsiBuilder::default();
    b.show_cursor(true);
    let before = b.s.len();
    encode_buffer(&mut b, &buf);
    let out: String = b.s[before..].iter().collect();
    assert_eq!(out, "\u{1b}[3J \u{1b}[?25l");
}
