//! Overlay compositor: the verified core of a program that composites an
//! off-screen-rendered UI surface on top of a scene each frame.
//!
//! The library owns a growable overlay pixel buffer that mirrors the UI
//! renderer's output, keeps it sized to the drawing surface, applies
//! channel-swizzled dirty-rectangle updates, and translates window input
//! events into UI-session input messages. The surrounding program performs
//! the actual windowing, GPU and UI-session calls and feeds this library
//! plain values.

mod compositor;
mod coords;
mod input;
mod messages;
mod pixels;
mod texture;

pub use compositor::Compositor;
pub use coords::flip_y;
pub use coords::flip_y_spec;
pub use coords::lemma_flip_y_involution;
pub use input::button_mask;
pub use input::event_y_ok;
pub use input::mask_of;
pub use input::ButtonMask;
pub use input::InputEvent;
pub use input::MouseButton;
pub use messages::is_mouse_msg;
pub use messages::MouseEventKind;
pub use messages::UiMessage;
pub use pixels::chan_swapped;
pub use pixels::copy_bytes;
pub use pixels::lemma_chan_swap_involution;
pub use pixels::swap_red_blue;
pub use texture::pixel_index;
pub use texture::OverlayTexture;
