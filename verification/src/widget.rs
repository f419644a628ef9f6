//! The command-queue widget engine: widgets receive owned events and
//! communicate with the frame loop by writing commands, which the loop
//! drains after dispatch.

pub mod editor;
pub mod root;
pub mod vsplit;

use vstd::prelude::*;

use crate::buffer::Buffer;
use crate::chars::push_dec;
use crate::command::CommandWriter;
use crate::event::Event;

verus! {

/// Whether the frame loop keeps running. `Exit` is monotonic: once
/// produced, the loop must stop without further dispatch.
#[must_use]
#[derive(Debug, Clone, Copy, PartialEq, Eq, Structural)]
pub enum ControlFlow {
    Continue,
    Exit,
}

/// One node of the widget tree. Widgets never remove or reorder
/// commands already written: dispatch only appends to the queue.
pub trait Widget {
    /// The widget's own well-formedness, established at construction
    /// and preserved by every call.
    spec fn inv(&self) -> bool;

    /// Handles one input event, possibly writing commands.
    fn handle_event(&mut self, event: Event, cmds: &mut CommandWriter)
        requires
            old(self).inv(),
        ensures
            final(self).inv(),
            old(cmds).spec_queue().is_prefix_of(final(cmds).spec_queue()),
    ;

    /// One frame tick, possibly writing commands.
    fn update(&mut self, cmds: &mut CommandWriter)
        requires
            old(self).inv(),
        ensures
            final(self).inv(),
            old(cmds).spec_queue().is_prefix_of(final(cmds).spec_queue()),
    ;

    /// Draws the widget into `buf`, preserving its dimensions.
    fn render(&mut self, buf: &mut Buffer)
        requires
            old(self).inv(),
            old(buf).wf(),
        ensures
            final(self).inv(),
            final(buf).wf(),
            final(buf).spec_width() == old(buf).spec_width(),
            final(buf).spec_height() == old(buf).spec_height(),
    ;
}

/// A diagnostic widget: counts frames, remembers the last event, and
/// renders the frame count with a one-character tag for the event
/// kind.
pub struct InputPrinter {
    pub ticks: usize,
    pub event: Option<Event>,
}

impl Default for InputPrinter {
    fn default() -> (r: InputPrinter)
        ensures
            r.ticks == 0,
            r.event is None,
    {
        InputPrinter { ticks: 0, event: None }
    }
}

impl Widget for InputPrinter {
    open spec fn inv(&self) -> bool {
        true
    }

    fn handle_event(&mut self, event: Event, cmds: &mut CommandWriter)
        ensures
            final(self).ticks == old(self).ticks,
            final(self).event == Some(event),
            *final(cmds) == *old(cmds),
    {
        self.event = Some(event);
    }

    fn update(&mut self, cmds: &mut CommandWriter)
        ensures
            final(self).ticks == (if old(self).ticks < usize::MAX {
                old(self).ticks + 1
            } else {
                usize::MAX as int
            }),
            final(self).event == old(self).event,
            *final(cmds) == *old(cmds),
    {
        self.ticks = self.ticks.saturating_add(1);
    }

    fn render(&mut self, buf: &mut Buffer) {
        if buf.height() == 0 {
            return ;
        }
        let mut line: Vec<char> = Vec::new();
        push_dec(&mut line, self.ticks / 60);
        match &self.event {
            Some(Event::Key(_)) => line.push('K'),
            Some(Event::Str(_)) => line.push('S'),
            None => (),
        }
        let w = buf.width();
        let mut x: usize = 0;
        while x < line.len() && x < w
            invariant
                buf.wf(),
                buf.spec_width() == old(buf).spec_width(),
                buf.spec_height() == old(buf).spec_height(),
                w == buf.spec_width(),
                buf.spec_height() > 0,
            decreases line.len() - x,
        {
            let c = line[x];
            buf.set_char(x, 0, c);
            x = x + 1;
        }
    }
}

} // verus!
