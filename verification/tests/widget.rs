use text_editor::buffer::Buffer;
use text_editor::command::{Command, CommandWriter};
use text_editor::editor::pane::Pos;
use text_editor::editor::vsplit::Focus;
use text_editor::event::{Event, KeyCode, KeyEvent, Modifiers};
use text_editor::ui::command::{CmdQueue, Command as UiCommand, SimpleCommand};
use text_editor::ui::ControlFlow;
use text_editor::ui::Widget as UiWidget;
use text_editor::widget::editor::Editor;
use text_editor::widget::root::Root;
use text_editor::widget::vsplit::VSplit;
use text_editor::widget::{InputPrinter, Widget};

fn key(code: KeyCode) -> Event {
    Event::Key(KeyEvent::key(code))
}

#[test]
fn editor_widget_edits_and_navigates() {
    let mut cmds = CommandWriter::new();
    let mut ed = Editor::default();

    for c in "ab".chars() {
        ed.handle_event(key(KeyCode::Char(c)), &mut cmds);
    }
    ed.handle_event(key(KeyCode::Return), &mut cmds);
    ed.handle_event(key(KeyCode::Char('c')), &mut cmds);

    assert_eq!(ed.rope.to_string(), "ab\nc");
    assert_eq!(ed.cursor_pos, 4);
    assert_eq!(ed.pos_to_xy(4), Some(Pos { x: 1, y: 1 }));
    assert_eq!(ed.line_len(0), Some(2));

    ed.handle_event(key(KeyCode::Up), &mut cmds);
    assert_eq!(ed.cursor_pos, 1);
    ed.handle_event(key(KeyCode::Down), &mut cmds);
    assert_eq!(ed.cursor_pos, 4);

    // A modified key does nothing.
    let alt_x = Event::Key(KeyEvent { key_code: KeyCode::Char('x'), modifiers: Modifiers::alt() });
    ed.handle_event(alt_x, &mut cmds);
    assert_eq!(ed.rope.to_string(), "ab\nc");
    assert!(cmds.drain_one().is_none());
}

#[test]
fn root_turns_exit_chord_into_command() {
    let mut cmds = CommandWriter::new();
    let mut root = Root::new(Editor::default());

    let ctrl_q = Event::Key(KeyEvent { key_code: KeyCode::Char('Q'), modifiers: Modifiers::ctrl() });
    root.handle_event(ctrl_q, &mut cmds);
    assert_eq!(cmds.drain_one(), Some(Command::Exit));
    assert!(cmds.drain_one().is_none());

    // Other events pass through to the wrapped widget.
    root.handle_event(key(KeyCode::Char('a')), &mut cmds);
    assert_eq!(root.inner.rope.to_string(), "a");
    assert!(cmds.drain_one().is_none());
}

#[test]
fn widget_vsplit_routes_by_focus() {
    let mut cmds = CommandWriter::new();
    let mut split: VSplit<Editor, Editor> =
        VSplit::new(Editor::default(), Editor::default(), None, Some(1));
    assert_eq!(split.focus, Focus::Top);

    split.handle_event(key(KeyCode::Char('t')), &mut cmds);

    let shift_down =
        Event::Key(KeyEvent { key_code: KeyCode::Down, modifiers: Modifiers::shift() });
    split.handle_event(shift_down, &mut cmds);
    assert_eq!(split.focus, Focus::Bottom);

    split.handle_event(key(KeyCode::Char('b')), &mut cmds);
    assert_eq!(split.top.rope.to_string(), "t");
    assert_eq!(split.bottom.rope.to_string(), "b");

    let shift_up = Event::Key(KeyEvent { key_code: KeyCode::Up, modifiers: Modifiers::shift() });
    split.handle_event(shift_up, &mut cmds);
    assert_eq!(split.focus, Focus::Top);
}

#[test]
fn widget_vsplit_renders_allocation() {
    let mut cmds = CommandWriter::new();
    let mut split: VSplit<Editor, Editor> =
        VSplit::new(Editor::default(), Editor::default(), None, Some(1));
    split.top.handle_event(key(KeyCode::Char('t')), &mut cmds);
    split.bottom.handle_event(key(KeyCode::Char('b')), &mut cmds);

    let mut buf = Buffer::new(4, 3);
    split.render(&mut buf);
    // Bottom constraint 1: the top gets the remaining two rows.
    assert_eq!(split.top_buffer.height(), 2);
    assert_eq!(split.bottom_buffer.height(), 1);
    assert_eq!(buf.get(0, 0).unwrap().c, 't');
    assert_eq!(buf.get(0, 2).unwrap().c, 'b');
    // The focused (top) child's cursor lands in the composed buffer.
    assert_eq!(buf.cursor(), Some((1, 0)));
}

#[test]
fn input_printer_counts_and_remembers() {
    let mut cmds = CommandWriter::new();
    let mut p = InputPrinter::default();
    p.update(&mut cmds);
    p.update(&mut cmds);
    assert_eq!(p.ticks, 2);
    p.handle_event(key(KeyCode::Tab), &mut cmds);
    assert!(p.event.is_some());

    let mut buf = Buffer::new(8, 2);
    p.render(&mut buf);
    // 2 ticks / 60 frames per second rounds down to zero seconds.
    assert_eq!(buf.get(0, 0).unwrap().c, '0');
    assert_eq!(buf.get(1, 0).unwrap().c, 'K');
}

#[test]
fn cmd_queue_is_first_in_first_out() {
    let mut q: CmdQueue<SimpleCommand> = CmdQueue::default();
    assert!(q.read().is_none());
    q.write(SimpleCommand::new_event(key(KeyCode::Tab)));
    q.write(SimpleCommand::new_event(key(KeyCode::Return)));
    let first = q.read().unwrap();
    match first.event() {
        Some(Event::Key(k)) => assert_eq!(k.key_code, KeyCode::Tab),
        _ => panic!("expected the first queued event"),
    }
    let second = q.read().unwrap();
    match second.event() {
        Some(Event::Key(k)) => assert_eq!(k.key_code, KeyCode::Return),
        _ => panic!("expected the second queued event"),
    }
    assert!(q.read().is_none());
}

#[test]
fn ui_root_exits_on_chord() {
    let mut state = ();
    let mut printer = text_editor::ui::widgets::Root::new(text_editor::ui::widgets::InputPrinter::default());
    let ctrl_q = Event::Key(KeyEvent { key_code: KeyCode::Char('Q'), modifiers: Modifiers::ctrl() });
    assert_eq!(UiWidget::handle_event(&mut printer, &mut state, &ctrl_q), Some(ControlFlow::Exit));
    assert_eq!(
        UiWidget::handle_event(&mut printer, &mut state, &key(KeyCode::Tab)),
        Some(ControlFlow::Continue)
    );
}

#[test]
fn pane_render_draws_text_and_cursor() {
    let mut state = text_editor::editor::EditorState::default();
    let mut pane = text_editor::editor::pane::Pane::default();
    UiWidget::handle_event(&mut pane, &mut state, &key(KeyCode::Char('i')));
    for c in "hi".chars() {
        UiWidget::handle_event(&mut pane, &mut state, &key(KeyCode::Char(c)));
    }
    UiWidget::handle_event(&mut pane, &mut state, &key(KeyCode::Return));
    UiWidget::handle_event(&mut pane, &mut state, &key(KeyCode::Char('y')));

    let mut buf = Buffer::new(4, 3);
    UiWidget::render(&mut pane, &mut buf);
    assert_eq!(buf.get(0, 0).unwrap().c, 'h');
    assert_eq!(buf.get(1, 0).unwrap().c, 'i');
    assert_eq!(buf.get(0, 1).unwrap().c, 'y');
    // Untouched cells keep the cleared default.
    assert_eq!(buf.get(3, 2).unwrap().c, ' ');
    // The cursor sits after the 'y' on the second row.
    assert_eq!(buf.cursor(), Some((1, 1)));
}
