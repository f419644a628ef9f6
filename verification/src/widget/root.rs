//! The root wrapper of the command-queue engine: the reserved exit
//! chord becomes an `Exit` command; everything else reaches the
//! wrapped widget.

use vstd::prelude::*;

use crate::buffer::Buffer;
use crate::command::Command;
use crate::command::CommandWriter;
use crate::event::Event;
use crate::event::KeyCode;
use crate::event::KeyEvent;
use crate::event::Modifiers;
use crate::ui::widgets::spec_is_exit_chord;
use crate::widget::Widget;

verus! {

/// Wraps the root widget and intercepts the exit chord (Ctrl+Q).
pub struct Root<W> {
    pub inner: W,
}

impl<W> Root<W> {
    /// Wraps `widget`.
    pub fn new(widget: W) -> (r: Root<W>)
        ensures
            r.inner == widget,
    {
        Root { inner: widget }
    }
}

impl<W: Widget> Widget for Root<W> {
    open spec fn inv(&self) -> bool {
        self.inner.inv()
    }

    fn handle_event(&mut self, event: Event, cmds: &mut CommandWriter)
        ensures
            spec_is_exit_chord(event) ==> final(cmds).spec_queue() == old(cmds).spec_queue().push(
                Command::Exit,
            ) && *final(self) == *old(self),
    {
        match &event {
            Event::Key(k) => {
                if k.key_code == KeyCode::Char('Q') && k.modifiers == Modifiers::ctrl() {
                    cmds.write(Command::Exit);
                    proof {
                        assert(old(cmds).spec_queue().is_prefix_of(cmds.spec_queue()));
                    }
                    return ;
                }
            },
            _ => {},
        }
        self.inner.handle_event(event, cmds);
    }

    fn update(&mut self, cmds: &mut CommandWriter) {
        self.inner.update(cmds);
    }

    fn render(&mut self, buf: &mut Buffer) {
        self.inner.render(buf);
    }
}

} // verus!
