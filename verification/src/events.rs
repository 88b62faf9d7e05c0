//! Dispatch decisions of the hosting event loop.
//!
//! The windowing collaborator feeds window signals in; the core decides
//! what the loop does with each: leave normally on a close request, apply
//! a resize, update and render on a redraw request, and turn the timer's
//! tick into a redraw request.  The host performs the returned action and
//! nothing else.

use vstd::prelude::*;

use crate::FrameSize;

verus! {

/// A signal the windowing collaborator delivers to the loop.
#[derive(Clone, Copy, Debug, PartialEq, Eq, Structural)]
pub enum WindowSignal {
    /// The user asked to close the window.
    CloseRequested,
    /// The window took a new physical size.
    Resized(FrameSize),
    /// The window should be redrawn now.
    RedrawRequested,
    /// The periodic timer fired; it carries no state of its own, and
    /// dropped or coalesced ticks are harmless because every redraw
    /// recomputes the frame from current state.
    TimerTick,
    /// Anything else the collaborator reports.
    Other,
}

/// What the loop does with one signal.
#[derive(Clone, Copy, Debug, PartialEq, Eq, Structural)]
pub enum LoopAction {
    /// Leave the loop; the process then terminates normally.
    Leave,
    /// Hand the new size to the renderer's `resize`.
    ApplyResize(FrameSize),
    /// Run one tick: `update`, then `render`.
    RedrawFrame,
    /// Ask the window for a redraw.
    AskRedraw,
    /// Nothing to do.
    Ignore,
}

/// Decides the loop's reaction to one window signal.
pub fn handle_signal(signal: &WindowSignal) -> (r: LoopAction)
    ensures
        *signal is CloseRequested ==> r is Leave,
        *signal matches WindowSignal::Resized(s) ==> r == LoopAction::ApplyResize(s),
        *signal is RedrawRequested ==> r is RedrawFrame,
        *signal is TimerTick ==> r is AskRedraw,
        *signal is Other ==> r is Ignore,
{
    match signal {
        WindowSignal::CloseRequested => LoopAction::Leave,
        WindowSignal::Resized(s) => LoopAction::ApplyResize(*s),
        WindowSignal::RedrawRequested => LoopAction::RedrawFrame,
        WindowSignal::TimerTick => LoopAction::AskRedraw,
        WindowSignal::Other => LoopAction::Ignore,
    }
}

} // verus!
