//! Decisions of the window event loop.
//!
//! The event pump itself is owned by the surrounding application; it
//! translates each incoming OS event into the plain shapes below, asks this
//! module what to do, and keeps polling or leaves the loop accordingly. The
//! loop ends on a close request or on the escape key, and on nothing else.

use vstd::prelude::*;

verus! {

/// What the event loop does after one event.
#[derive(Clone, Copy, Debug, PartialEq, Eq, Structural)]
pub enum FlowControl {
    Continue,
    Break,
}

/// The one key the loop reacts to, against all others.
#[derive(Clone, Copy, Debug, PartialEq, Eq, Structural)]
pub enum KeyCode {
    Escape,
    Other,
}

/// A window event, reduced to what the decisions read.
#[derive(Clone, Copy, Debug, PartialEq, Eq, Structural)]
pub enum WindowEvent {
    /// A key went down; `None` when the key has no virtual key code.
    KeyboardInput(Option<KeyCode>),
    CloseRequested,
    Other,
}

/// Any event the pump may hand over.
#[derive(Clone, Copy, Debug, PartialEq, Eq, Structural)]
pub enum Event {
    Window(WindowEvent),
    Device,
    Awakened,
    Suspended,
}

/// The loop breaks on a key exactly when it is the escape key.
pub fn handle_keyboard_input(key: Option<KeyCode>) -> (r: FlowControl)
    ensures
        r == FlowControl::Break <==> key == Some(KeyCode::Escape),
{
    if let Some(k) = key {
        if k == KeyCode::Escape {
            FlowControl::Break
        } else {
            FlowControl::Continue
        }
    } else {
        FlowControl::Continue
    }
}

/// The loop breaks on a window event exactly on a close request or on the
/// escape key.
pub fn handle_window_event(event: WindowEvent) -> (r: FlowControl)
    ensures
        r == FlowControl::Break <==> event == WindowEvent::CloseRequested || event
            == WindowEvent::KeyboardInput(Some(KeyCode::Escape)),
{
    match event {
        WindowEvent::KeyboardInput(key) => handle_keyboard_input(key),
        WindowEvent::CloseRequested => FlowControl::Break,
        WindowEvent::Other => FlowControl::Continue,
    }
}

/// Device events never end the loop.
pub fn handle_device_event() -> (r: FlowControl)
    ensures
        r == FlowControl::Continue,
{
    FlowControl::Continue
}

/// The decision over every event the pump may hand over: only a window
/// event can end the loop, under the window-event rule.
pub fn handle_event(event: Event) -> (r: FlowControl)
    ensures
        r == FlowControl::Break <==> event == Event::Window(WindowEvent::CloseRequested) || event
            == Event::Window(WindowEvent::KeyboardInput(Some(KeyCode::Escape))),
{
    match event {
        Event::Window(w) => handle_window_event(w),
        Event::Device => handle_device_event(),
        Event::Awakened => FlowControl::Continue,
        Event::Suspended => FlowControl::Continue,
    }
}

} // verus!
