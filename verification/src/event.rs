//! What passes between the engine and the loop around it.
//!
//! The engine does not wait, draw or poll: the loop that owns it does. The
//! loop hands the engine what happened, and the engine answers what to do
//! next.

use vstd::prelude::*;

verus! {

/// What a frame of a run asks of its caller.
#[derive(Clone, Copy, Debug, PartialEq, Eq)]
pub enum Frame {
    /// The run is over: the engine is idle.
    Finished,
    /// The frame took less than a step: sleep this many nanoseconds, then
    /// run the next frame.
    Sleep(u64),
    /// The frame took a step's time or more: run the next frame at once.
    Proceed,
}

/// What is left of a frame's time budget after `spent` nanoseconds.
pub open spec fn pause(step: nat, spent: u64) -> Frame {
    if spent < step {
        Frame::Sleep((step - spent) as u64)
    } else {
        Frame::Proceed
    }
}

/// A key of the keyboard, as far as the engine tells keys apart.
#[derive(Clone, Copy, Debug, PartialEq, Eq)]
pub enum Key {
    /// The escape key.
    Escape,
    /// Any other key.
    Other,
}

/// An event of a window's loop.
#[derive(Clone, Copy, Debug, PartialEq, Eq)]
pub enum Event {
    /// The user asked to close the window.
    CloseRequested,
    /// A key was pressed or released; `None` where the key has no name.
    KeyboardInput(Option<Key>),
    /// The window wants its contents drawn.
    RedrawRequested,
    /// The events of this iteration are all handled.
    MainEventsCleared,
    /// Anything else.
    Other,
}

/// What the engine asks of the window's loop in answer to an event.
#[derive(Clone, Copy, Debug, PartialEq, Eq)]
pub enum Action {
    /// Wait for the next event.
    Wait,
    /// Leave the loop.
    Exit,
    /// Clear the surface, have the engine render, and present the result.
    Redraw,
    /// Ask the window for a redraw.
    RequestRedraw,
}

/// Whether an event ends the run.
pub open spec fn ends_run(event: Event) -> bool {
    event == Event::CloseRequested || event == Event::KeyboardInput(Some(Key::Escape))
}

/// What a running engine answers to an event.
pub open spec fn answer(event: Event) -> Action {
    if ends_run(event) {
        Action::Exit
    } else if event == Event::RedrawRequested {
        Action::Redraw
    } else if event == Event::MainEventsCleared {
        Action::RequestRedraw
    } else {
        Action::Wait
    }
}

} // verus!
