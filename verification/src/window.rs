//! The window event step: what the presentation loop does with each event
//! the platform event pump delivers. The pump itself (blocking for the
//! next event, reading the window's current size) is the platform's; the
//! decisions — when to exit, when to mark a resize, when to run a frame —
//! are made here.

use vstd::prelude::*;

verus! {

/// One platform event, reduced to what the loop reads of it.
#[derive(Clone, Copy, Debug, PartialEq, Eq, Structural)]
pub enum WindowEvent {
    /// The user asked a window to close; `matches_window` says whether it
    /// is the window this loop presents to.
    CloseRequested { matches_window: bool },
    /// The window was resized since the last frame.
    Resized,
    /// All pending events are dispatched; one frame may run now.
    MainEventsCleared,
    /// Any event the loop does not react to.
    Other,
}

/// What the caller does with the event just handled.
#[derive(Clone, Copy, Debug, PartialEq, Eq, Structural)]
pub enum EventAction {
    /// Leave the event loop; the run is over.
    Exit,
    /// Run one frame; `window_resized` says whether a resize occurred
    /// since the previous frame, so the viewport and command buffers must
    /// be rebuilt.
    RunFrame { window_resized: bool },
    /// Keep waiting for the next event.
    Wait,
}

/// The event pump's per-iteration state: whether a resize has been
/// observed since the last frame ran.
pub struct EventLoopState {
    pub window_resized: bool,
}

impl EventLoopState {
    /// Fresh state: no resize observed yet.
    pub fn new() -> (r: EventLoopState)
        ensures
            !r.window_resized,
    {
        EventLoopState { window_resized: false }
    }

    /// Handles one event. A close request for this loop's window exits; a
    /// resize is remembered until the next frame runs; when the pending
    /// events are cleared, one frame runs carrying the remembered resize,
    /// which is then consumed. Everything else waits.
    pub fn handle_event(&mut self, event: &WindowEvent) -> (r: EventAction)
        ensures
            match *event {
                WindowEvent::CloseRequested { matches_window } => {
                    &&& (matches_window ==> r is Exit)
                    &&& (!matches_window ==> r is Wait)
                    &&& final(self).window_resized == old(self).window_resized
                },
                WindowEvent::Resized => {
                    &&& r is Wait
                    &&& final(self).window_resized
                },
                WindowEvent::MainEventsCleared => {
                    &&& r == (EventAction::RunFrame { window_resized: old(self).window_resized })
                    &&& !final(self).window_resized
                },
                WindowEvent::Other => {
                    &&& r is Wait
                    &&& final(self).window_resized == old(self).window_resized
                },
            },
    {
        match event {
            WindowEvent::CloseRequested { matches_window } => {
                if *matches_window {
                    EventAction::Exit
                } else {
                    EventAction::Wait
                }
            },
            WindowEvent::Resized => {
                self.window_resized = true;
                EventAction::Wait
            },
            WindowEvent::MainEventsCleared => {
                let window_resized = self.window_resized;
                self.window_resized = false;
                EventAction::RunFrame { window_resized }
            },
            WindowEvent::Other => EventAction::Wait,
        }
    }
}

} // verus!
