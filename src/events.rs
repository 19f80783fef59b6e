use vstd::prelude::*;

verus! {

/// Key code of the escape key, the built-in close trigger.
pub const KEY_ESCAPE: i32 = 256;

/// A key transition as the window system reports it.
#[derive(Clone, Copy, Debug, PartialEq, Eq, Structural)]
pub enum KeyAction {
    Release,
    Press,
    Repeat,
}

/// The window events that the run-loop reacts to, with plain values:
/// a key by its platform-independent key code, a size in screen units.
#[derive(Clone, Copy, Debug, PartialEq, Eq, Structural)]
pub enum WindowEvent {
    Key { key: i32, action: KeyAction },
    Size { width: i32, height: i32 },
    Other,
}

/// What the run-loop does in answer to one window event.
#[derive(Clone, Copy, Debug, PartialEq, Eq, Structural)]
pub enum EventResponse {
    /// Ask the window to close; the key is not forwarded.
    RequestClose,
    /// Forward the key transition to the application's key handler.
    ForwardKey { key: i32, action: KeyAction },
    /// Forward the new size to the application's resize handler.
    Resize { width: isize, height: isize },
    /// Nothing to do.
    Ignore,
}

/// The response owed to an event: pressing escape closes the window, every
/// other key transition (escape released or repeated included) goes to the
/// key handler, a new size goes to the resize handler, the rest is ignored.
pub open spec fn response_to(event: WindowEvent) -> EventResponse {
    match event {
        WindowEvent::Key { key, action } => {
            if key == KEY_ESCAPE && action == KeyAction::Press {
                EventResponse::RequestClose
            } else {
                EventResponse::ForwardKey { key, action }
            }
        },
        WindowEvent::Size { width, height } => EventResponse::Resize {
            width: width as isize,
            height: height as isize,
        },
        WindowEvent::Other => EventResponse::Ignore,
    }
}

/// Decides how the run-loop answers one window event.
pub fn handle_window_event(event: WindowEvent) -> (r: EventResponse)
    ensures
        r == response_to(event),
{
    match event {
        WindowEvent::Key { key, action } => {
            if key == KEY_ESCAPE && action == KeyAction::Press {
                EventResponse::RequestClose
            } else {
                EventResponse::ForwardKey { key, action }
            }
        },
        WindowEvent::Size { width, height } => EventResponse::Resize {
            width: width as isize,
            height: height as isize,
        },
        WindowEvent::Other => EventResponse::Ignore,
    }
}

} // verus!
