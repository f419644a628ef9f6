//! Application commands emitted by widgets during dispatch and drained
//! by the frame loop afterwards.

use vstd::prelude::*;

use std::collections::VecDeque;

verus! {

/// A command for the frame loop.
#[derive(Debug, Clone, Copy, PartialEq, Eq, Structural)]
pub enum Command {
    Exit,
}

/// Collects commands in order while a widget handles an event; the
/// frame loop drains the queue afterwards.
pub struct CommandWriter {
    pub queue: VecDeque<Command>,
}

impl CommandWriter {
    /// The commands written so far, oldest first.
    pub open spec fn spec_queue(self) -> Seq<Command> {
        self.queue@
    }

    /// An empty writer.
    pub fn new() -> (r: CommandWriter)
        ensures
            r.spec_queue() == Seq::<Command>::empty(),
    {
        CommandWriter { queue: VecDeque::new() }
    }

    /// Appends a command behind all written ones.
    pub fn write(&mut self, cmd: Command)
        ensures
            final(self).spec_queue() == old(self).spec_queue().push(cmd),
    {
        self.queue.push_back(cmd);
    }

    /// Takes the oldest written command.
    pub fn drain_one(&mut self) -> (r: Option<Command>)
        ensures
            old(self).spec_queue().len() == 0 ==> r is None && final(self).spec_queue()
                == old(self).spec_queue(),
            old(self).spec_queue().len() > 0 ==> r == Some(old(self).spec_queue()[0])
                && final(self).spec_queue() == old(self).spec_queue().drop_first(),
    {
        self.queue.pop_front()
    }
}

} // verus!
