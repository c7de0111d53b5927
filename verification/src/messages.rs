//! The messages the compositor decides to send to the UI renderer session.
//! The surrounding program turns each into the session library's own call.

use vstd::prelude::*;

use crate::coords::flip_y_spec;
use crate::input::ButtonMask;

verus! {

/// The kind of a translated mouse message.
#[derive(Clone, Copy, PartialEq, Eq, Structural, Debug)]
pub enum MouseEventKind {
    Move,
    Down,
    Up,
}

/// One message of the ordered stream addressed to the UI session.
///
/// `RenderTo` asks for a render of the full overlay (no clipping layer);
/// the session answers by handing back dirty rectangles, which the caller
/// feeds to the compositor. `Mouse` coordinates are in the session's own
/// space (origin top-left), with keyboard modifiers always empty.
#[derive(Clone, Copy, PartialEq, Eq, Structural, Debug)]
pub enum UiMessage {
    Create { transparent: bool },
    Size { width: u32, height: u32 },
    RenderTo,
    Heartbit { milliseconds: u32 },
    Mouse { kind: MouseEventKind, mask: ButtonMask, modifiers: u32, x: i32, y: i32 },
    Destroy,
}

/// `m` is the mouse message of the given kind and mask at window position
/// `(x, y)` on a surface of height `h`: same x, y flipped to the session's
/// top-left origin, and no keyboard modifiers.
pub open spec fn is_mouse_msg(
    m: UiMessage,
    kind: MouseEventKind,
    mask: ButtonMask,
    x: i32,
    h: int,
    y: int,
) -> bool {
    match m {
        UiMessage::Mouse { kind: k2, mask: m2, modifiers, x: x2, y: y2 } => {
            &&& k2 == kind
            &&& m2 == mask
            &&& modifiers == 0
            &&& x2 == x
            &&& y2 == flip_y_spec(h, y)
        },
        _ => false,
    }
}

} // verus!
