//! Basic widgets of the engine: the exit-key root wrapper and a
//! diagnostic widget that shows the frame count and the kind of the
//! last input event.

use vstd::prelude::*;

use crate::buffer::Buffer;
use crate::chars::push_dec;
use crate::event::dup_event;
use crate::event::Event;
use crate::event::KeyCode;
use crate::event::KeyEvent;
use crate::event::Modifiers;
use crate::event::spec_event_like;
use crate::ui::ControlFlow;
use crate::ui::Widget;

verus! {

/// Wraps the root widget and turns the reserved exit chord (Ctrl+Q)
/// into `Exit` before anything else sees it; every other event goes to
/// the wrapped widget.
pub struct Root<W> {
    pub inner: W,
}

impl<W> Root<W> {
    /// Wraps `widget`.
    pub fn new(widget: W) -> (r: Root<W>)
        ensures
            r.inner == widget,
    {
        Root { inner: widget }
    }
}

/// The reserved exit chord.
pub open spec fn spec_is_exit_chord(event: Event) -> bool {
    event == Event::Key(
        KeyEvent { key_code: KeyCode::Char('Q'), modifiers: Modifiers::spec_ctrl() },
    )
}

impl<S, W: Widget<S>> Widget<S> for Root<W> {
    open spec fn state_ok(state: S) -> bool {
        W::state_ok(state)
    }

    open spec fn inv(&self) -> bool {
        self.inner.inv()
    }

    fn handle_event(&mut self, state: &mut S, event: &Event) -> (r: Option<ControlFlow>)
        ensures
            spec_is_exit_chord(*event) ==> r == Some(ControlFlow::Exit) && *final(self)
                == *old(self),
    {
        match event {
            Event::Key(k) => {
                if k.key_code == KeyCode::Char('Q') && k.modifiers == Modifiers::ctrl() {
                    return Some(ControlFlow::Exit);
                }
            },
            _ => {},
        }
        self.inner.handle_event(state, event)
    }

    fn update(&mut self, state: &mut S) -> (r: ControlFlow) {
        self.inner.update(state)
    }

    fn render(&mut self, buf: &mut Buffer) {
        self.inner.render(buf);
    }
}

/// A diagnostic widget: counts frames, remembers the last event, and
/// renders the frame count (in whole seconds at the nominal frame
/// rate) with a one-character tag for the event kind.
pub struct InputPrinter {
    pub ticks: usize,
    pub event: Option<Event>,
}

impl Default for InputPrinter {
    fn default() -> (r: InputPrinter)
        ensures
            r.ticks == 0,
            r.event is None,
    {
        InputPrinter { ticks: 0, event: None }
    }
}

impl Widget<()> for InputPrinter {
    open spec fn state_ok(state: ()) -> bool {
        true
    }

    open spec fn inv(&self) -> bool {
        true
    }

    fn handle_event(&mut self, state: &mut (), event: &Event) -> (r: Option<ControlFlow>)
        ensures
            r == Some(ControlFlow::Continue),
            final(self).ticks == old(self).ticks,
            match final(self).event {
                Some(e) => spec_event_like(*event, e),
                None => false,
            },
    {
        self.event = Some(dup_event(event));
        Some(ControlFlow::Continue)
    }

    fn update(&mut self, state: &mut ()) -> (r: ControlFlow)
        ensures
            r == ControlFlow::Continue,
            final(self).ticks == (if old(self).ticks < usize::MAX {
                old(self).ticks + 1
            } else {
                usize::MAX as int
            }),
            final(self).event == old(self).event,
    {
        self.ticks = self.ticks.saturating_add(1);
        ControlFlow::Continue
    }

    fn render(&mut self, buf: &mut Buffer) {
        if buf.height() == 0 {
            return ;
        }
        let mut line: Vec<char> = Vec::new();
        push_dec(&mut line, self.ticks / 60);
        match &self.event {
            Some(Event::Key(_)) => line.push('K'),
            Some(Event::Str(_)) => line.push('S'),
            None => (),
        }
        let w = buf.width();
        let mut x: usize = 0;
        while x < line.len() && x < w
            invariant
                buf.wf(),
                buf.spec_width() == old(buf).spec_width(),
                buf.spec_height() == old(buf).spec_height(),
                w == buf.spec_width(),
                buf.spec_height() > 0,
            decreases line.len() - x,
        {
            let c = line[x];
            buf.set_char(x, 0, c);
            x = x + 1;
        }
    }
}

} // verus!
