//! The widget engine: the control-flow signal, the widget capability
//! set, and the command queue. The frame loop that drives a widget tree
//! lives outside the library; everything it dispatches through is
//! specified here.

pub mod command;
pub mod widgets;

use vstd::prelude::*;

use crate::buffer::Buffer;
use crate::event::Event;

verus! {

/// Whether the frame loop keeps running. `Exit` is monotonic: once any
/// widget produces it, the loop must stop without further dispatch.
#[must_use]
#[derive(Debug, Clone, Copy, PartialEq, Eq, Structural)]
pub enum ControlFlow {
    Continue,
    Exit,
}

impl Default for ControlFlow {
    fn default() -> (r: ControlFlow)
        ensures
            r == ControlFlow::Continue,
    {
        ControlFlow::Continue
    }
}

/// One node of the widget tree, generic over the application state
/// threaded through every call. A widget may decline an event by
/// returning `None`, letting the caller try a sibling or handle it
/// itself. Every widget preserves the validity of the shared state and
/// the shape of the buffer it renders into.
pub trait Widget<GlobalState> {
    /// What this widget requires of the shared state.
    spec fn state_ok(state: GlobalState) -> bool;

    /// The widget's own well-formedness, established at construction
    /// and preserved by every call.
    spec fn inv(&self) -> bool;

    /// Offers `event` to the widget; `None` declines it. Dispatch
    /// reads the shared state but never changes it.
    fn handle_event(&mut self, state: &mut GlobalState, event: &Event) -> (r: Option<ControlFlow>)
        requires
            old(self).inv(),
            Self::state_ok(*old(state)),
        ensures
            final(self).inv(),
            *final(state) == *old(state),
    ;

    /// One frame tick. The tick reads the shared state but never
    /// changes it.
    fn update(&mut self, state: &mut GlobalState) -> (r: ControlFlow)
        requires
            old(self).inv(),
            Self::state_ok(*old(state)),
        ensures
            final(self).inv(),
            *final(state) == *old(state),
    ;

    /// Draws the widget into `buf`, preserving its dimensions.
    fn render(&mut self, buf: &mut Buffer)
        requires
            old(self).inv(),
            old(buf).wf(),
        ensures
            final(self).inv(),
            final(buf).wf(),
            final(buf).spec_width() == old(buf).spec_width(),
            final(buf).spec_height() == old(buf).spec_height(),
    ;
}

} // verus!
