//! The overlay compositor: owns the overlay texture, keeps it sized to the
//! drawing surface, applies the renderer's dirty rectangles, and translates
//! window input events into UI-session messages.

use vstd::prelude::*;

use crate::coords::flip_y;
use crate::coords::flip_y_spec;
use crate::input::ButtonMask;
use crate::input::InputEvent;
use crate::input::button_mask;
use crate::input::event_y_ok;
use crate::input::mask_of;
use crate::messages::MouseEventKind;
use crate::messages::UiMessage;
use crate::messages::is_mouse_msg;
use crate::pixels::chan_swapped;
use crate::pixels::copy_bytes;
use crate::pixels::swap_red_blue;
use crate::texture::OverlayTexture;
use crate::texture::pixel_index;

verus! {

/// The per-session compositor state: the overlay texture, the last surface
/// size seen by a frame draw, and the pending button mask.
pub struct Compositor {
    texture: OverlayTexture,
    surface_width: u32,
    surface_height: u32,
    buttons: ButtonMask,
}

impl Compositor {
    /// The overlay texture.
    pub closed spec fn spec_texture(self) -> OverlayTexture {
        self.texture
    }

    /// Width of the surface seen by the most recent frame draw.
    pub closed spec fn spec_surface_width(self) -> int {
        self.surface_width as int
    }

    /// Height of the surface seen by the most recent frame draw.
    pub closed spec fn spec_surface_height(self) -> int {
        self.surface_height as int
    }

    /// The currently held button mask.
    pub closed spec fn spec_buttons(self) -> ButtonMask {
        self.buttons
    }

    /// Well-formedness: a well-formed texture, a surface size with both
    /// axes positive and addressable as `i32` coordinates, and the overlay
    /// texture sized exactly to the tracked surface.
    pub open spec fn wf(self) -> bool {
        &&& self.spec_texture().wf()
        &&& 1 <= self.spec_surface_width() <= 0x7fff_ffff
        &&& 1 <= self.spec_surface_height() <= 0x7fff_ffff
        &&& self.spec_texture().spec_width() == self.spec_surface_width()
        &&& self.spec_texture().spec_height() == self.spec_surface_height()
    }

    /// Start a session: a 1-by-1 transparent texture, a 1-by-1 surface,
    /// and no button held.
    pub fn new() -> (c: Self)
        ensures
            c.wf(),
            c.spec_texture().spec_width() == 1,
            c.spec_texture().spec_height() == 1,
            c.spec_texture().fully_transparent(),
            c.spec_surface_width() == 1,
            c.spec_surface_height() == 1,
            c.spec_buttons() == ButtonMask::NoButton,
    {
        Compositor {
            texture: OverlayTexture::new(1, 1),
            surface_width: 1,
            surface_height: 1,
            buttons: ButtonMask::NoButton,
        }
    }

    /// Per-frame bookkeeping, called with the surface's current pixel size
    /// after the scene has been drawn. Records the surface size; if the
    /// overlay texture's size differs, replaces it with a fresh transparent
    /// texture of the new size. Returns the messages owed to the UI
    /// session, in order: a size-change notification exactly when the
    /// texture was reallocated, then always one render request.
    pub fn on_frame_draw(&mut self, width: u32, height: u32) -> (msgs: Vec<UiMessage>)
        requires
            old(self).wf(),
            1 <= width <= 0x7fff_ffff,
            1 <= height <= 0x7fff_ffff,
            width as int * height as int * 4 <= usize::MAX,
        ensures
            final(self).wf(),
            final(self).spec_surface_width() == width,
            final(self).spec_surface_height() == height,
            final(self).spec_texture().spec_width() == width,
            final(self).spec_texture().spec_height() == height,
            final(self).spec_buttons() == old(self).spec_buttons(),
            (old(self).spec_texture().spec_width() == width && old(self).spec_texture().spec_height()
                == height) ==> {
                &&& final(self).spec_texture() == old(self).spec_texture()
                &&& msgs@ == seq![UiMessage::RenderTo]
            },
            !(old(self).spec_texture().spec_width() == width
                && old(self).spec_texture().spec_height() == height) ==> {
                &&& final(self).spec_texture().fully_transparent()
                &&& msgs@ == seq![(UiMessage::Size { width, height }), UiMessage::RenderTo]
            },
    {
        self.surface_width = width;
        self.surface_height = height;
        let mut msgs: Vec<UiMessage> = Vec::new();
        if self.texture.size_differs(width, height) {
            self.texture = OverlayTexture::new(width, height);
            msgs.push(UiMessage::Size { width, height });
            msgs.push(UiMessage::RenderTo);
            proof {
                assert(msgs@ =~= seq![(UiMessage::Size { width, height }), UiMessage::RenderTo]);
            }
        } else {
            msgs.push(UiMessage::RenderTo);
            proof {
                assert(msgs@ =~= seq![UiMessage::RenderTo]);
            }
        }
        msgs
    }

    /// One dirty rectangle from the render request's callback: the bytes
    /// are copied, their red and blue channels exchanged, and the result
    /// written into the overlay texture at the rectangle's offset; pixels
    /// outside the rectangle are untouched.
    pub fn apply_dirty_rect(
        &mut self,
        left: u32,
        top: u32,
        rect_width: u32,
        rect_height: u32,
        data: &Vec<u8>,
    )
        requires
            old(self).wf(),
            left + rect_width <= old(self).spec_texture().spec_width(),
            top + rect_height <= old(self).spec_texture().spec_height(),
            data@.len() == rect_width as int * rect_height as int * 4,
        ensures
            final(self).wf(),
            final(self).spec_surface_width() == old(self).spec_surface_width(),
            final(self).spec_surface_height() == old(self).spec_surface_height(),
            final(self).spec_buttons() == old(self).spec_buttons(),
            final(self).spec_texture().spec_width() == old(self).spec_texture().spec_width(),
            final(self).spec_texture().spec_height() == old(self).spec_texture().spec_height(),
            forall|x: int, y: int, k: int|
                #![trigger pixel_index(old(self).spec_texture().spec_width(), x, y, k)]
                left <= x < left + rect_width && top <= y < top + rect_height && 0 <= k < 4
                    ==> final(self).spec_texture().spec_pixels()[pixel_index(
                    old(self).spec_texture().spec_width(),
                    x,
                    y,
                    k,
                )] == chan_swapped(data@)[pixel_index(rect_width as int, x - left, y - top, k)],
            forall|x: int, y: int, k: int|
                #![trigger pixel_index(old(self).spec_texture().spec_width(), x, y, k)]
                0 <= x < old(self).spec_texture().spec_width() && 0 <= y < old(
                    self,
                ).spec_texture().spec_height() && 0 <= k < 4 && !(left <= x < left + rect_width
                    && top <= y < top + rect_height) ==> final(self).spec_texture().spec_pixels()[pixel_index(
                    old(self).spec_texture().spec_width(),
                    x,
                    y,
                    k,
                )] == old(self).spec_texture().spec_pixels()[pixel_index(
                    old(self).spec_texture().spec_width(),
                    x,
                    y,
                    k,
                )],
    {
        let mut corrected = copy_bytes(data);
        proof {
            assert(corrected@.len() % 4 == 0) by {
                assert(corrected@.len() == (rect_width as int * rect_height as int) * 4);
            }
        }
        swap_red_blue(&mut corrected);
        self.texture.write_rect(left, top, rect_width, rect_height, &corrected);
    }

    /// A heartbeat for the given number of milliseconds since session
    /// start; it advances the UI session's internal timers and leaves the
    /// compositor state untouched.
    pub fn on_tick(&self, milliseconds: u32) -> (msg: UiMessage)
        ensures
            msg == (UiMessage::Heartbit { milliseconds }),
    {
        UiMessage::Heartbit { milliseconds }
    }

    /// Translate a window input event into the mouse message owed to the
    /// UI session, updating the pending button mask:
    /// - a move forwards the held mask unchanged;
    /// - a press sets the mask to the pressed button's and forwards it;
    /// - a release forwards the mask held before the release, then resets
    ///   it to none;
    /// - any other event is ignored.
    /// Coordinates keep their x and have y flipped against the surface
    /// height last seen by a frame draw.
    pub fn on_input_event(&mut self, event: InputEvent) -> (msg: Option<UiMessage>)
        requires
            old(self).wf(),
            event_y_ok(event),
        ensures
            final(self).wf(),
            final(self).spec_texture() == old(self).spec_texture(),
            final(self).spec_surface_width() == old(self).spec_surface_width(),
            final(self).spec_surface_height() == old(self).spec_surface_height(),
            match event {
                InputEvent::MouseMove { x, y } => {
                    &&& final(self).spec_buttons() == old(self).spec_buttons()
                    &&& msg matches Some(m) && is_mouse_msg(
                        m,
                        MouseEventKind::Move,
                        old(self).spec_buttons(),
                        x,
                        old(self).spec_surface_height(),
                        y as int,
                    )
                },
                InputEvent::MouseDown { x, y, button } => {
                    &&& final(self).spec_buttons() == mask_of(button)
                    &&& msg matches Some(m) && is_mouse_msg(
                        m,
                        MouseEventKind::Down,
                        mask_of(button),
                        x,
                        old(self).spec_surface_height(),
                        y as int,
                    )
                },
                InputEvent::MouseUp { x, y, .. } => {
                    &&& final(self).spec_buttons() == ButtonMask::NoButton
                    &&& msg matches Some(m) && is_mouse_msg(
                        m,
                        MouseEventKind::Up,
                        old(self).spec_buttons(),
                        x,
                        old(self).spec_surface_height(),
                        y as int,
                    )
                },
                InputEvent::Other => {
                    &&& final(self).spec_buttons() == old(self).spec_buttons()
                    &&& msg is None
                },
            },
    {
        match event {
            InputEvent::MouseMove { x, y } => {
                let flipped = flip_y(self.surface_height, y);
                Some(
                    UiMessage::Mouse {
                        kind: MouseEventKind::Move,
                        mask: self.buttons,
                        modifiers: 0,
                        x,
                        y: flipped,
                    },
                )
            },
            InputEvent::MouseDown { x, y, button } => {
                self.buttons = button_mask(button);
                let flipped = flip_y(self.surface_height, y);
                Some(
                    UiMessage::Mouse {
                        kind: MouseEventKind::Down,
                        mask: self.buttons,
                        modifiers: 0,
                        x,
                        y: flipped,
                    },
                )
            },
            InputEvent::MouseUp { x, y, .. } => {
                let mask = self.buttons;
                self.buttons = ButtonMask::NoButton;
                let flipped = flip_y(self.surface_height, y);
                Some(
                    UiMessage::Mouse {
                        kind: MouseEventKind::Up,
                        mask,
                        modifiers: 0,
                        x,
                        y: flipped,
                    },
                )
            },
            InputEvent::Other => None,
        }
    }

    /// The overlay texture, for the draw path that composites it onto the
    /// surface.
    pub fn texture(&self) -> (t: &OverlayTexture)
        ensures
            *t == self.spec_texture(),
    {
        &self.texture
    }

    /// The surface size seen by the most recent frame draw.
    pub fn surface_size(&self) -> (s: (u32, u32))
        ensures
            s.0 == self.spec_surface_width(),
            s.1 == self.spec_surface_height(),
    {
        (self.surface_width, self.surface_height)
    }

    /// The currently held button mask.
    pub fn buttons(&self) -> (b: ButtonMask)
        ensures
            b == self.spec_buttons(),
    {
        self.buttons
    }
}

} // verus!
