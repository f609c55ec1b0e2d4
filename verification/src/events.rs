//! The windowing events the application reads, reduced to plain data, and
//! the host's routing decision for each event.
//!
//! The event loop integration hands every window event to the camera
//! controller first; `route_event` then says what the host itself must do
//! with an event the controller did not consume.

use vstd::prelude::*;

verus! {

/// The physical keys the application distinguishes.
#[derive(Clone, Copy, Debug, PartialEq, Eq, Structural)]
pub enum Key {
    KeyW,
    KeyA,
    KeyS,
    KeyD,
    ArrowUp,
    ArrowDown,
    ArrowLeft,
    ArrowRight,
    Escape,
    Other,
}

/// A window event, reduced to the data the decision logic reads.
#[derive(Clone, Copy, Debug, PartialEq, Eq, Structural)]
pub enum InputEvent {
    Keyboard { key: Key, pressed: bool },
    CloseRequested,
    Resized { width: u32, height: u32 },
    RedrawRequested,
    Other,
}

/// What the host does with an event that reached it.
#[derive(Clone, Copy, Debug, PartialEq, Eq, Structural)]
pub enum HostAction {
    /// Leave the event loop and shut down.
    Exit,
    /// Reconfigure the presentation surface for a new pixel size.
    Resize { width: u32, height: u32 },
    /// Run one frame: update the camera, upload it, draw.
    RenderFrame,
    /// Nothing to do.
    Ignore,
}

/// The routing rule: a consumed event is dropped; otherwise a close request
/// or a pressed escape key ends the application, a resize reconfigures, and
/// a redraw request renders one frame.
pub open spec fn spec_route(consumed: bool, e: InputEvent) -> HostAction {
    if consumed {
        HostAction::Ignore
    } else {
        match e {
            InputEvent::CloseRequested => HostAction::Exit,
            InputEvent::Keyboard { key: Key::Escape, pressed: true } => HostAction::Exit,
            InputEvent::Resized { width, height } => HostAction::Resize { width, height },
            InputEvent::RedrawRequested => HostAction::RenderFrame,
            _ => HostAction::Ignore,
        }
    }
}

/// Decides what the host does with `event`, given whether the camera
/// controller already consumed it.
pub fn route_event(consumed: bool, event: &InputEvent) -> (r: HostAction)
    ensures
        r == spec_route(consumed, *event),
{
    if consumed {
        HostAction::Ignore
    } else {
        match *event {
            InputEvent::CloseRequested => HostAction::Exit,
            InputEvent::Keyboard { key: Key::Escape, pressed: true } => HostAction::Exit,
            InputEvent::Resized { width, height } => HostAction::Resize { width, height },
            InputEvent::RedrawRequested => HostAction::RenderFrame,
            _ => HostAction::Ignore,
        }
    }
}

} // verus!
