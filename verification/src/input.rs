//! Window input events and the pending-button state they drive.

use vstd::prelude::*;

verus! {

/// A physical mouse button as reported by the windowing layer.
#[derive(Clone, Copy, PartialEq, Eq, Structural, Debug)]
pub enum MouseButton {
    Left,
    Right,
    Middle,
}

/// The button mask carried by UI-session mouse messages: at most one
/// outstanding button is tracked at a time (last pressed wins).
#[derive(Clone, Copy, PartialEq, Eq, Structural, Debug)]
pub enum ButtonMask {
    NoButton,
    Primary,
    Secondary,
    Middle,
}

/// The mask a freshly pressed button sets: left maps to primary, right to
/// secondary, middle to middle.
pub open spec fn mask_of(b: MouseButton) -> ButtonMask {
    match b {
        MouseButton::Left => ButtonMask::Primary,
        MouseButton::Right => ButtonMask::Secondary,
        MouseButton::Middle => ButtonMask::Middle,
    }
}

/// Executable counterpart of [`mask_of`].
pub fn button_mask(b: MouseButton) -> (m: ButtonMask)
    ensures
        m == mask_of(b),
{
    match b {
        MouseButton::Left => ButtonMask::Primary,
        MouseButton::Right => ButtonMask::Secondary,
        MouseButton::Middle => ButtonMask::Middle,
    }
}

/// A window event, in window pixel coordinates (origin bottom-left).
/// Events the compositor does not translate are `Other`.
#[derive(Clone, Copy, PartialEq, Eq, Structural, Debug)]
pub enum InputEvent {
    MouseMove { x: i32, y: i32 },
    MouseDown { x: i32, y: i32, button: MouseButton },
    MouseUp { x: i32, y: i32, button: MouseButton },
    Other,
}

/// The y coordinate of a mouse event is non-negative, so that the y-axis
/// flip stays within `i32`.
pub open spec fn event_y_ok(e: InputEvent) -> bool {
    match e {
        InputEvent::MouseMove { y, .. } => 0 <= y,
        InputEvent::MouseDown { y, .. } => 0 <= y,
        InputEvent::MouseUp { y, .. } => 0 <= y,
        InputEvent::Other => true,
    }
}

} // verus!
