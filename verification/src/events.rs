//! Window events, reduced to the data the core logic reads, and the
//! dispatch rule the event loop follows for each of them.

use vstd::prelude::*;
use crate::camera::{NavCommand, event_nav_command};

verus! {

/// A keyboard key, as far as this library distinguishes them.
#[derive(Clone, Copy, PartialEq, Eq, Structural, Debug)]
pub enum Key {
    W,
    A,
    S,
    D,
    Escape,
    Other,
}

/// Whether a key transition is a press or a release.
#[derive(Clone, Copy, PartialEq, Eq, Structural, Debug)]
pub enum KeyState {
    Pressed,
    Released,
}

/// A window event, reduced to the fields the core logic reads.
#[derive(Clone, Copy, PartialEq, Eq, Structural, Debug)]
pub enum SurfaceEvent {
    Keyboard { key: Key, state: KeyState },
    Resized { width: u32, height: u32 },
    CloseRequested,
    RedrawRequested,
    Other,
}

/// What the event loop does with one window event: exactly one of moving the
/// camera (then requesting a redraw), resizing, redrawing, exiting, or
/// ignoring it.
#[derive(Clone, Copy, PartialEq, Eq, Structural, Debug)]
pub enum LoopAction {
    Navigate(NavCommand),
    Resize { width: u32, height: u32 },
    Redraw,
    Exit,
    Ignore,
}

/// The dispatch rule: navigation key presses are consumed first; otherwise a
/// resize notification resizes, a close request or a pressed escape key
/// exits, a redraw request renders a frame, and anything else is ignored.
pub open spec fn loop_action_spec(e: SurfaceEvent) -> LoopAction {
    match event_nav_command(e) {
        Some(cmd) => LoopAction::Navigate(cmd),
        None => match e {
            SurfaceEvent::Resized { width, height } => LoopAction::Resize { width, height },
            SurfaceEvent::CloseRequested => LoopAction::Exit,
            SurfaceEvent::RedrawRequested => LoopAction::Redraw,
            SurfaceEvent::Keyboard { key: Key::Escape, state: KeyState::Pressed } => LoopAction::Exit,
            _ => LoopAction::Ignore,
        },
    }
}

/// Maps one window event to the single action the loop takes for it.
pub fn dispatch_event(e: &SurfaceEvent) -> (a: LoopAction)
    ensures
        a == loop_action_spec(*e),
{
    match *e {
        SurfaceEvent::Keyboard { key, state } => match (key, state) {
            (Key::W, KeyState::Pressed) => LoopAction::Navigate(NavCommand::Forward),
            (Key::S, KeyState::Pressed) => LoopAction::Navigate(NavCommand::Back),
            (Key::A, KeyState::Pressed) => LoopAction::Navigate(NavCommand::StrafeLeft),
            (Key::D, KeyState::Pressed) => LoopAction::Navigate(NavCommand::StrafeRight),
            (Key::Escape, KeyState::Pressed) => LoopAction::Exit,
            _ => LoopAction::Ignore,
        },
        SurfaceEvent::Resized { width, height } => LoopAction::Resize { width, height },
        SurfaceEvent::CloseRequested => LoopAction::Exit,
        SurfaceEvent::RedrawRequested => LoopAction::Redraw,
        SurfaceEvent::Other => LoopAction::Ignore,
    }
}

} // verus!
