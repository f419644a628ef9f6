use text_editor::buffer::{Buffer, Cell};
use text_editor::editor::command::EditorCommand;
use text_editor::editor::editor_root::EditorRoot;
use text_editor::editor::event::{InsertModeEvent, NormalModeEvent};
use text_editor::editor::keybindings::{insert_mode_keybindings, normal_mode_keybindings};
use text_editor::editor::pane::{Mode, Pane, Pos};
use text_editor::editor::text_field::TextField;
use text_editor::editor::vsplit::{Focus, VSplit};
use text_editor::editor::EditorState;
use text_editor::event::{Event, KeyCode, KeyEvent, Modifiers};
use text_editor::ui::{ControlFlow, Widget};

fn key(code: KeyCode) -> Event {
    Event::Key(KeyEvent::key(code))
}

fn send(pane: &mut Pane, state: &mut EditorState, e: Event) -> Option<ControlFlow> {
    pane.handle_event(state, &e)
}

#[test]
fn end_to_end_scenario() {
    // Start with empty text, enter insert mode, type a, b, Return, c.
    let mut state = EditorState::default();
    let mut pane = Pane::default();
    assert_eq!(pane.mode, Mode::Normal);

    assert_eq!(send(&mut pane, &mut state, key(KeyCode::Char('i'))), Some(ControlFlow::Continue));
    assert_eq!(pane.mode, Mode::Insert);

    send(&mut pane, &mut state, key(KeyCode::Char('a')));
    send(&mut pane, &mut state, key(KeyCode::Char('b')));
    send(&mut pane, &mut state, key(KeyCode::Return));
    send(&mut pane, &mut state, key(KeyCode::Char('c')));

    // The text store now holds the two lines "ab" and "c".
    assert_eq!(pane.rope.to_string(), "ab\nc");
    assert_eq!(pane.cursor_pos, 4);
    assert_eq!(pane.pos_to_xy(4), Some(Pos { x: 1, y: 1 }));
    assert_eq!(pane.line_len(0), Some(2));
    assert_eq!(pane.line_len(1), Some(1));
    assert_eq!(pane.line_len(2), None);
}

#[test]
fn ghost_column_round_trip() {
    // Lines "abcd" / "x" / "abcd": moving down through the short line
    // and back up restores the cursor exactly.
    let mut state = EditorState::default();
    let mut pane = Pane::default();
    send(&mut pane, &mut state, key(KeyCode::Char('i')));
    for c in "abcd\nx\nabcd".chars() {
        if c == '\n' {
            send(&mut pane, &mut state, key(KeyCode::Return));
        } else {
            send(&mut pane, &mut state, key(KeyCode::Char(c)));
        }
    }
    // Move to line 0, column 3.
    send(&mut pane, &mut state, key(KeyCode::Up));
    send(&mut pane, &mut state, key(KeyCode::Up));
    send(&mut pane, &mut state, key(KeyCode::Home));
    send(&mut pane, &mut state, key(KeyCode::Right));
    send(&mut pane, &mut state, key(KeyCode::Right));
    send(&mut pane, &mut state, key(KeyCode::Right));
    assert_eq!(pane.cursor_pos, 3);

    // Down lands at the short line's end; the ghost remembers 3.
    send(&mut pane, &mut state, key(KeyCode::Down));
    assert_eq!(pane.cursor_pos, 6); // line "x" has navigable length 1
    send(&mut pane, &mut state, key(KeyCode::Down));
    assert_eq!(pane.cursor_pos, 10); // line 2, column 3
    send(&mut pane, &mut state, key(KeyCode::Up));
    send(&mut pane, &mut state, key(KeyCode::Up));
    assert_eq!(pane.cursor_pos, 3); // back exactly
}

#[test]
fn horizontal_moves_clamp_to_text() {
    let mut state = EditorState::default();
    let mut pane = Pane::default();
    send(&mut pane, &mut state, key(KeyCode::Char('i')));
    send(&mut pane, &mut state, key(KeyCode::Char('a')));
    send(&mut pane, &mut state, key(KeyCode::Char('b')));

    send(&mut pane, &mut state, key(KeyCode::Right));
    assert_eq!(pane.cursor_pos, 2); // clamped at the end
    send(&mut pane, &mut state, key(KeyCode::Left));
    send(&mut pane, &mut state, key(KeyCode::Left));
    send(&mut pane, &mut state, key(KeyCode::Left));
    assert_eq!(pane.cursor_pos, 0); // clamped at the start

    pane.move_cursor(100);
    assert_eq!(pane.cursor_pos, 2);
    pane.move_cursor(-100);
    assert_eq!(pane.cursor_pos, 0);
}

#[test]
fn vertical_moves_snap_at_boundaries() {
    let mut state = EditorState::default();
    let mut pane = Pane::default();
    send(&mut pane, &mut state, key(KeyCode::Char('i')));
    for c in "ab".chars() {
        send(&mut pane, &mut state, key(KeyCode::Char(c)));
    }
    send(&mut pane, &mut state, key(KeyCode::Return));
    send(&mut pane, &mut state, key(KeyCode::Char('c')));

    // Down past the last line snaps to the very end.
    send(&mut pane, &mut state, key(KeyCode::Down));
    assert_eq!(pane.cursor_pos, 4);
    // Up past the first line snaps to the very start.
    send(&mut pane, &mut state, key(KeyCode::Up));
    send(&mut pane, &mut state, key(KeyCode::Up));
    assert_eq!(pane.cursor_pos, 0);
}

#[test]
fn delete_and_backspace_edit_text() {
    let mut state = EditorState::default();
    let mut pane = Pane::default();
    send(&mut pane, &mut state, key(KeyCode::Char('i')));
    for c in "abc".chars() {
        send(&mut pane, &mut state, key(KeyCode::Char(c)));
    }
    send(&mut pane, &mut state, key(KeyCode::Backspace));
    assert_eq!(pane.rope.to_string(), "ab");
    assert_eq!(pane.cursor_pos, 2);

    send(&mut pane, &mut state, key(KeyCode::Home));
    send(&mut pane, &mut state, key(KeyCode::Delete));
    assert_eq!(pane.rope.to_string(), "b");
    assert_eq!(pane.cursor_pos, 0);

    // Backspace at the start is a no-op on the text.
    send(&mut pane, &mut state, key(KeyCode::Backspace));
    assert_eq!(pane.rope.to_string(), "b");
}

#[test]
fn injected_string_inserts_as_block() {
    let mut state = EditorState::default();
    let mut pane = Pane::default();
    send(&mut pane, &mut state, key(KeyCode::Char('i')));
    send(&mut pane, &mut state, Event::Str(String::from("hi there")));
    assert_eq!(pane.rope.to_string(), "hi there");
    assert_eq!(pane.cursor_pos, 8);

    // Escape leaves insert mode; 'i' afterwards re-enters instead of
    // inserting.
    send(&mut pane, &mut state, key(KeyCode::Escape));
    assert_eq!(pane.mode, Mode::Normal);
    send(&mut pane, &mut state, key(KeyCode::Char('i')));
    assert_eq!(pane.mode, Mode::Insert);
    assert_eq!(pane.rope.to_string(), "hi there");
}

#[test]
fn normal_mode_declines_unknown_keys() {
    let mut state = EditorState::default();
    let mut pane = Pane::default();
    assert_eq!(send(&mut pane, &mut state, key(KeyCode::Char('z'))), None);
    assert_eq!(pane.rope.to_string(), "");
}

#[test]
fn text_field_edits_one_line() {
    let mut state = EditorState::default();
    let mut tf = TextField::default();
    for c in "wq".chars() {
        tf.handle_event(&mut state, &key(KeyCode::Char(c)));
    }
    assert_eq!(tf.value(), "wq");
    assert_eq!(tf.cursor_pos, 2);

    tf.handle_event(&mut state, &key(KeyCode::Home));
    assert_eq!(tf.cursor_pos, 0);
    tf.handle_event(&mut state, &key(KeyCode::End));
    assert_eq!(tf.cursor_pos, 2);
    tf.handle_event(&mut state, &key(KeyCode::Backspace));
    assert_eq!(tf.value(), "w");
    tf.clear();
    assert_eq!(tf.value(), "");
    assert_eq!(tf.cursor_pos, 0);
}

#[test]
fn editor_root_switches_to_command_entry() {
    let mut state = EditorState::default();
    let mut root = EditorRoot::default();
    assert!(!root.command_mode);

    // ':' in normal mode enters command entry (the pane declines it).
    let r = root.handle_event(&mut state, &key(KeyCode::Char(':')));
    assert_eq!(r, Some(ControlFlow::Continue));
    assert!(root.command_mode);

    // Typed characters now go to the command line.
    root.handle_event(&mut state, &key(KeyCode::Char('w')));
    assert_eq!(root.cmd_line.value(), "w");
    assert_eq!(root.main.rope.to_string(), "");

    // Escape clears the line and leaves command entry.
    root.handle_event(&mut state, &key(KeyCode::Escape));
    assert!(!root.command_mode);
    assert_eq!(root.cmd_line.value(), "");

    // 'q' in normal mode exits.
    let r = root.handle_event(&mut state, &key(KeyCode::Char('q')));
    assert_eq!(r, Some(ControlFlow::Exit));
}

#[test]
fn vsplit_focus_exclusivity() {
    let mut state = EditorState::default();
    let mut split: VSplit<Pane, Pane> = VSplit::new(Pane::default(), Pane::default(), None, None);
    assert_eq!(split.focus, Focus::Top);

    let ctrl_down = Event::Key(KeyEvent { key_code: KeyCode::Down, modifiers: Modifiers::ctrl() });
    let ctrl_up = Event::Key(KeyEvent { key_code: KeyCode::Up, modifiers: Modifiers::ctrl() });

    // Ctrl+Up while already at the top is not consumed.
    assert_eq!(split.handle_event(&mut state, &ctrl_up), None);
    assert_eq!(split.focus, Focus::Top);

    assert_eq!(split.handle_event(&mut state, &ctrl_down), Some(ControlFlow::Continue));
    assert_eq!(split.focus, Focus::Bottom);
    assert_eq!(split.handle_event(&mut state, &ctrl_down), None);
    assert_eq!(split.focus, Focus::Bottom);

    // Non-chord input goes only to the focused (bottom) child.
    split.handle_event(&mut state, &key(KeyCode::Char('i')));
    split.handle_event(&mut state, &key(KeyCode::Char('x')));
    assert_eq!(split.bottom.rope.to_string(), "x");
    assert_eq!(split.top.rope.to_string(), "");

    assert_eq!(split.handle_event(&mut state, &ctrl_up), Some(ControlFlow::Continue));
    assert_eq!(split.focus, Focus::Top);
}

#[test]
fn keybindings_lookup_matches_tables() {
    let normal = normal_mode_keybindings();
    assert_eq!(
        normal.lookup(&KeyEvent::key(KeyCode::Char('i'))),
        Some(NormalModeEvent::InsertMode)
    );
    assert_eq!(normal.lookup(&KeyEvent::key(KeyCode::Up)), Some(NormalModeEvent::MoveUp));
    assert_eq!(normal.lookup(&KeyEvent::key(KeyCode::Char('z'))), None);

    // The insert-mode table exists with the same shape.
    let insert = insert_mode_keybindings();
    assert_eq!(insert.map.len(), 9);
}

#[test]
fn editor_command_from_event() {
    let ctrl_c = Event::Key(KeyEvent { key_code: KeyCode::Char('C'), modifiers: Modifiers::ctrl() });
    assert!(matches!(EditorCommand::from_event(ctrl_c), Some(EditorCommand::EnterCommand)));

    let ctrl_q = Event::Key(KeyEvent { key_code: KeyCode::Char('Q'), modifiers: Modifiers::ctrl() });
    assert!(matches!(EditorCommand::from_event(ctrl_q), Some(EditorCommand::Exit)));

    let shift_up = Event::Key(KeyEvent { key_code: KeyCode::Up, modifiers: Modifiers::shift() });
    assert!(matches!(EditorCommand::from_event(shift_up), Some(EditorCommand::FocusUp)));

    assert!(matches!(
        EditorCommand::from_event(key(KeyCode::Char('x'))),
        Some(EditorCommand::InsertChar('x'))
    ));
    assert!(matches!(EditorCommand::from_event(key(KeyCode::Return)), Some(EditorCommand::Return)));
    assert!(matches!(
        EditorCommand::from_event(Event::Str(String::from("abc"))),
        Some(EditorCommand::InsertString(_))
    ));
    let alt_x = Event::Key(KeyEvent { key_code: KeyCode::Char('x'), modifiers: Modifiers::alt() });
    assert!(EditorCommand::from_event(alt_x).is_none());
}

#[test]
fn insert_mode_event_round_trip_through_keymaps() {
    let state = EditorState::default();
    let escape = key(KeyCode::Escape);
    match state.key_maps.insert_mode(escape) {
        Ok(InsertModeEvent::Escape) => {},
        _ => panic!("Escape must map to the insert-mode escape event"),
    }
    match state.key_maps.insert_mode(key(KeyCode::Char('q'))) {
        Ok(InsertModeEvent::InsertChar('q')) => {},
        _ => panic!("an unmodified character falls back to literal insertion"),
    }
    match state.key_maps.normal_mode(key(KeyCode::Char('q'))) {
        Err(_) => {},
        _ => panic!("normal mode does not bind plain q"),
    }
}

#[test]
fn navigation_on_empty_text_stays_put() {
    let mut state = EditorState::default();
    let mut pane = Pane::default();
    send(&mut pane, &mut state, key(KeyCode::Char('i')));
    for k in [KeyCode::Up, KeyCode::Down, KeyCode::Left, KeyCode::Right, KeyCode::Home,
        KeyCode::End, KeyCode::Delete, KeyCode::Backspace] {
        send(&mut pane, &mut state, key(k));
        assert_eq!(pane.cursor_pos, 0);
    }
    assert_eq!(pane.rope.to_string(), "");
    // The empty text still has exactly one (empty) line.
    assert_eq!(pane.line_len(0), Some(0));
    assert_eq!(pane.line_len(1), None);
}

#[test]
fn editor_root_renders_command_row() {
    let mut state = EditorState::default();
    let mut root = EditorRoot::default();
    root.handle_event(&mut state, &key(KeyCode::Char(':')));
    root.handle_event(&mut state, &key(KeyCode::Char('w')));

    let mut buf = Buffer::new(5, 3);
    root.render(&mut buf);
    // The last row carries the marker and the command line.
    assert_eq!(buf.get(0, 2).unwrap().c, ':');
    assert_eq!(buf.get(1, 2).unwrap().c, 'w');

    // Below two rows, rendering is skipped entirely.
    let mut tiny = Buffer::new(5, 1);
    tiny.set(2, 0, Cell::char('x'));
    root.render(&mut tiny);
    assert_eq!(tiny.get(2, 0).unwrap().c, 'x');
}
