use text_editor::event::{parse_event, parse_modifiers, Event, KeyCode, KeyEvent, Modifiers};

fn key_of(bytes: &[u8]) -> KeyEvent {
    match parse_event(bytes) {
        Some(Event::Key(k)) => k,
        _ => panic!("expected a key event"),
    }
}

#[test]
fn lone_escape_is_escape_key() {
    let k = key_of(&[0x1b]);
    assert_eq!(k.key_code, KeyCode::Escape);
    assert_eq!(k.modifiers, Modifiers::empty());
}

#[test]
fn doubled_escape_is_escape_key() {
    let k = key_of(&[0x1b, 0x1b]);
    assert_eq!(k.key_code, KeyCode::Escape);
    assert_eq!(k.modifiers, Modifiers::empty());
}

#[test]
fn ctrl_byte_maps_to_ctrl_letter() {
    let k = key_of(&[0x03]);
    assert_eq!(k.key_code, KeyCode::Char('C'));
    assert_eq!(k.modifiers, Modifiers::ctrl());
}

#[test]
fn tab_newline_return_map_directly() {
    assert_eq!(key_of(&[0x09]).key_code, KeyCode::Tab);
    assert_eq!(key_of(&[0x0a]).key_code, KeyCode::Newline);
    assert_eq!(key_of(&[0x0d]).key_code, KeyCode::Return);
}

#[test]
fn xterm_home_with_ctrl_modifier() {
    let k = key_of(b"\x1b[1;5H");
    assert_eq!(k.key_code, KeyCode::Home);
    // 5 - 1 = 4 is exactly the Ctrl bit.
    assert_eq!(k.modifiers, Modifiers::ctrl());
}

#[test]
fn escape_prefixed_byte_gets_alt() {
    let k = key_of(&[0x1b, b'a']);
    assert_eq!(k.key_code, KeyCode::Char('a'));
    assert_eq!(k.modifiers, Modifiers::alt());
}

#[test]
fn two_byte_utf8_scalar_decodes() {
    // 'e' with an acute accent, UTF-8 encoded in two bytes.
    let k = key_of(&[0xc3, 0xa9]);
    assert_eq!(k.key_code, KeyCode::Char('\u{e9}'));
    assert_eq!(k.modifiers, Modifiers::empty());
}

#[test]
fn invalid_utf8_chunk_is_dropped() {
    // A truncated or corrupted multi-byte sequence decodes to nothing.
    assert!(parse_event(&[0xc3, 0x28]).is_none());
    assert!(parse_event(&[b'a', 0xff]).is_none());
    // A single byte never goes through UTF-8: it reads as the
    // character with that code.
    assert_eq!(key_of(&[0xc3]).key_code, KeyCode::Char('\u{c3}'));
}

#[test]
fn vt_sequences_select_keys() {
    assert_eq!(key_of(b"\x1b[3~").key_code, KeyCode::Delete);
    assert_eq!(key_of(b"\x1b[5~").key_code, KeyCode::PageUp);
    assert_eq!(key_of(b"\x1b[11~").key_code, KeyCode::Function(1));
    assert_eq!(key_of(b"\x1b[21~").key_code, KeyCode::Function(10));
    let k = key_of(b"\x1b[3;2~");
    assert_eq!(k.key_code, KeyCode::Delete);
    assert_eq!(k.modifiers, Modifiers::shift());
}

#[test]
fn vt_code_sixteen_is_unassigned() {
    assert!(parse_event(b"\x1b[16~").is_none());
    assert!(parse_event(b"\x1b[22~").is_none());
}

#[test]
fn xterm_arrows_and_function_keys() {
    assert_eq!(key_of(b"\x1b[A").key_code, KeyCode::Up);
    assert_eq!(key_of(b"\x1b[B").key_code, KeyCode::Down);
    assert_eq!(key_of(b"\x1b[C").key_code, KeyCode::Right);
    assert_eq!(key_of(b"\x1b[D").key_code, KeyCode::Left);
    assert_eq!(key_of(b"\x1b[F").key_code, KeyCode::End);
    assert_eq!(key_of(b"\x1b[P").key_code, KeyCode::Function(1));
    assert!(parse_event(b"\x1b[Z").is_none());
}

#[test]
fn ascii_control_characters_are_rejected() {
    // DEL alone, and an unparsable modifier parameter.
    assert!(parse_event(&[0x7f]).is_none());
    assert!(parse_event(b"\x1b[1;x~").is_none());
}

#[test]
fn plain_text_decodes_first_character() {
    let k = key_of(b"ab");
    assert_eq!(k.key_code, KeyCode::Char('a'));
}

#[test]
fn modifier_parameter_decoding() {
    assert_eq!(parse_modifiers(b"5"), Some(Modifiers::ctrl()));
    assert_eq!(parse_modifiers(b"2"), Some(Modifiers::shift()));
    assert_eq!(parse_modifiers(b"3"), Some(Modifiers::alt()));
    // str::parse accepts a leading plus sign.
    assert_eq!(parse_modifiers(b"+5"), Some(Modifiers::ctrl()));
    // The four bits beyond Meta are truncated away.
    assert_eq!(parse_modifiers(b"17"), Some(Modifiers::empty()));
    assert_eq!(parse_modifiers(b""), None);
    assert_eq!(parse_modifiers(b"x"), None);
    assert_eq!(parse_modifiers(b"256"), None);
    // Zero saturates: no underflow below "no modifiers".
    assert_eq!(parse_modifiers(b"0"), Some(Modifiers::empty()));
}

#[test]
fn alt_bracket_alone() {
    let k = key_of(&[0x1b, b'[']);
    assert_eq!(k.key_code, KeyCode::Char('['));
    assert_eq!(k.modifiers, Modifiers::alt());
}
