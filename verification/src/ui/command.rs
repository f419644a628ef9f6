//! Commands flowing between widgets and the frame loop, queued in
//! arrival order.

use vstd::prelude::*;

use std::collections::VecDeque;

use crate::event::Event;

verus! {

/// A command a widget can emit or consume; at minimum it can carry a
/// raw input event.
pub trait Command: Sized {
    /// Wraps a raw input event.
    fn new_event(event: Event) -> Self;

    /// The raw input event this command carries, if any.
    fn event(&self) -> Option<&Event>;
}

/// The simplest command: exactly one raw input event.
pub struct SimpleCommand(pub Event);

impl Command for SimpleCommand {
    fn new_event(event: Event) -> Self {
        SimpleCommand(event)
    }

    fn event(&self) -> Option<&Event> {
        Some(&self.0)
    }
}

/// A first-in first-out queue of commands.
pub struct CmdQueue<C: Command>(pub VecDeque<C>);

impl<C: Command> CmdQueue<C> {
    /// The queued commands, oldest first.
    pub open spec fn spec_queue(self) -> Seq<C> {
        self.0@
    }

    /// Takes the oldest queued command.
    pub fn read(&mut self) -> (r: Option<C>)
        ensures
            old(self).spec_queue().len() == 0 ==> r is None && final(self).spec_queue()
                == old(self).spec_queue(),
            old(self).spec_queue().len() > 0 ==> r == Some(old(self).spec_queue()[0])
                && final(self).spec_queue() == old(self).spec_queue().drop_first(),
    {
        self.0.pop_front()
    }

    /// Appends a command behind all queued ones.
    pub fn write(&mut self, cmd: C)
        ensures
            final(self).spec_queue() == old(self).spec_queue().push(cmd),
    {
        self.0.push_back(cmd);
    }
}

impl<C: Command> Default for CmdQueue<C> {
    fn default() -> (r: CmdQueue<C>)
        ensures
            r.spec_queue() == Seq::<C>::empty(),
    {
        CmdQueue(VecDeque::new())
    }
}

} // verus!
