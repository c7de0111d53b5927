use overlay_compositor::ButtonMask;
use overlay_compositor::Compositor;
use overlay_compositor::InputEvent;
use overlay_compositor::MouseButton;
use overlay_compositor::MouseEventKind;
use overlay_compositor::UiMessage;

fn channel(c: &Compositor, x: u32, y: u32, k: u32) -> u8 {
    c.texture().channel(x, y, k)
}

#[test]
fn first_frame_draw_sizes_texture() {
    // Any surface size with both axes at least 1 leaves the texture at
    // exactly that size after one frame draw.
    for (w, h) in [(1u32, 1u32), (2, 3), (800, 600), (1, 1024)] {
        let mut c = Compositor::new();
        let _ = c.on_frame_draw(w, h);
        assert_eq!(c.texture().width(), w);
        assert_eq!(c.texture().height(), h);
        assert_eq!(c.surface_size(), (w, h));
    }
}

#[test]
fn resize_sends_one_size_message_and_clears() {
    let mut c = Compositor::new();
    let msgs = c.on_frame_draw(800, 600);
    assert_eq!(
        msgs,
        vec![
            UiMessage::Size { width: 800, height: 600 },
            UiMessage::RenderTo,
        ]
    );
    // The freshly allocated texture reads as fully transparent.
    for (x, y) in [(0u32, 0u32), (799, 0), (0, 599), (400, 300), (799, 599)] {
        for k in 0..4 {
            assert_eq!(channel(&c, x, y, k), 0);
        }
    }
    // Same size again: no size message, no reallocation, just a render
    // request.
    let msgs = c.on_frame_draw(800, 600);
    assert_eq!(msgs, vec![UiMessage::RenderTo]);
    // A different size again triggers exactly one size message.
    let msgs = c.on_frame_draw(640, 480);
    assert_eq!(
        msgs,
        vec![
            UiMessage::Size { width: 640, height: 480 },
            UiMessage::RenderTo,
        ]
    );
}

#[test]
fn first_draw_at_startup_size_skips_resize() {
    // The texture starts at 1-by-1, so a 1-by-1 surface needs no resize.
    let mut c = Compositor::new();
    let msgs = c.on_frame_draw(1, 1);
    assert_eq!(msgs, vec![UiMessage::RenderTo]);
}

#[test]
fn channel_swap_round_trip() {
    let bufs: [Vec<u8>; 3] = [
        vec![],
        vec![1, 2, 3, 4],
        vec![10, 20, 30, 40, 50, 60, 70, 80, 90, 100, 110, 120],
    ];
    for buf in bufs {
        let mut swapped = buf.clone();
        overlay_compositor::swap_red_blue(&mut swapped);
        let mut twice = swapped.clone();
        overlay_compositor::swap_red_blue(&mut twice);
        assert_eq!(twice, buf);
    }
}

#[test]
fn channel_swap_exact() {
    let mut buf = vec![1u8, 2, 3, 4, 5, 6, 7, 8];
    overlay_compositor::swap_red_blue(&mut buf);
    assert_eq!(buf, vec![3, 2, 1, 4, 7, 6, 5, 8]);
}

#[test]
fn flip_y_maps_and_inverts() {
    // For a surface of height 600, window y 10 maps to UI y 589.
    assert_eq!(overlay_compositor::flip_y(600, 10), 589);
    assert_eq!(overlay_compositor::flip_y(600, 0), 599);
    assert_eq!(overlay_compositor::flip_y(600, 599), 0);
    assert_eq!(overlay_compositor::flip_y(1, 0), 0);
    // The same formula is its own inverse.
    for y in [0, 1, 10, 299, 599] {
        let f = overlay_compositor::flip_y(600, y);
        assert_eq!(overlay_compositor::flip_y(600, f), y);
    }
}

#[test]
fn apply_dirty_rect_writes_swapped_bytes() {
    let mut c = Compositor::new();
    let _ = c.on_frame_draw(4, 4);
    let data = vec![1u8, 2, 3, 4, 5, 6, 7, 8];
    // A 2-by-1 rectangle at (2, 1).
    c.apply_dirty_rect(2, 1, 2, 1, &data);
    assert_eq!(channel(&c, 2, 1, 0), 3);
    assert_eq!(channel(&c, 2, 1, 1), 2);
    assert_eq!(channel(&c, 2, 1, 2), 1);
    assert_eq!(channel(&c, 2, 1, 3), 4);
    assert_eq!(channel(&c, 3, 1, 0), 7);
    assert_eq!(channel(&c, 3, 1, 1), 6);
    assert_eq!(channel(&c, 3, 1, 2), 5);
    assert_eq!(channel(&c, 3, 1, 3), 8);
    // Pixels outside the rectangle are untouched (still transparent).
    for (x, y) in [(0u32, 0u32), (1, 1), (2, 0), (2, 2), (3, 3)] {
        for k in 0..4 {
            assert_eq!(channel(&c, x, y, k), 0);
        }
    }
}

#[test]
fn apply_dirty_rect_updates_are_partial() {
    let mut c = Compositor::new();
    let _ = c.on_frame_draw(2, 2);
    c.apply_dirty_rect(0, 0, 2, 2, &vec![9u8; 16]);
    // A later 1-by-1 update leaves the other three pixels as they were.
    c.apply_dirty_rect(1, 1, 1, 1, &vec![1u8, 2, 3, 4]);
    assert_eq!(channel(&c, 0, 0, 0), 9);
    assert_eq!(channel(&c, 1, 0, 3), 9);
    assert_eq!(channel(&c, 0, 1, 2), 9);
    assert_eq!(channel(&c, 1, 1, 0), 3);
    assert_eq!(channel(&c, 1, 1, 3), 4);
}

#[test]
fn heartbeat_carries_milliseconds() {
    let c = Compositor::new();
    assert_eq!(c.on_tick(0), UiMessage::Heartbit { milliseconds: 0 });
    assert_eq!(c.on_tick(16), UiMessage::Heartbit { milliseconds: 16 });
}

#[test]
fn button_mask_lifecycle() {
    let mut c = Compositor::new();
    let _ = c.on_frame_draw(800, 600);
    // A move with no prior press reports no button.
    let m = c.on_input_event(InputEvent::MouseMove { x: 5, y: 5 });
    assert_eq!(
        m,
        Some(UiMessage::Mouse {
            kind: MouseEventKind::Move,
            mask: ButtonMask::NoButton,
            modifiers: 0,
            x: 5,
            y: 594,
        })
    );
    // A left press sets the primary mask.
    let m = c.on_input_event(InputEvent::MouseDown { x: 5, y: 5, button: MouseButton::Left });
    assert_eq!(
        m,
        Some(UiMessage::Mouse {
            kind: MouseEventKind::Down,
            mask: ButtonMask::Primary,
            modifiers: 0,
            x: 5,
            y: 594,
        })
    );
    assert_eq!(c.buttons(), ButtonMask::Primary);
    // The release is forwarded with the mask held before it, then resets
    // the mask to none.
    let m = c.on_input_event(InputEvent::MouseUp { x: 6, y: 7, button: MouseButton::Left });
    assert_eq!(
        m,
        Some(UiMessage::Mouse {
            kind: MouseEventKind::Up,
            mask: ButtonMask::Primary,
            modifiers: 0,
            x: 6,
            y: 592,
        })
    );
    assert_eq!(c.buttons(), ButtonMask::NoButton);
}

#[test]
fn right_and_middle_buttons_map_to_their_masks() {
    let mut c = Compositor::new();
    let _ = c.on_frame_draw(100, 100);
    let _ = c.on_input_event(InputEvent::MouseDown { x: 0, y: 0, button: MouseButton::Right });
    assert_eq!(c.buttons(), ButtonMask::Secondary);
    // Last pressed wins: a middle press replaces the secondary mask.
    let _ = c.on_input_event(InputEvent::MouseDown { x: 0, y: 0, button: MouseButton::Middle });
    assert_eq!(c.buttons(), ButtonMask::Middle);
}

#[test]
fn other_events_are_ignored() {
    let mut c = Compositor::new();
    let m = c.on_input_event(InputEvent::Other);
    assert_eq!(m, None);
    assert_eq!(c.buttons(), ButtonMask::NoButton);
}

#[test]
fn end_to_end_scenario() {
    // Start with the 1-by-1 startup texture.
    let mut c = Compositor::new();
    assert_eq!(c.texture().width(), 1);
    assert_eq!(c.texture().height(), 1);
    // First frame draw on an 800-by-600 surface: the texture is resized,
    // one size message is sent, and one render request is issued.
    let msgs = c.on_frame_draw(800, 600);
    assert_eq!(c.texture().width(), 800);
    assert_eq!(c.texture().height(), 600);
    assert_eq!(
        msgs,
        vec![
            UiMessage::Size { width: 800, height: 600 },
            UiMessage::RenderTo,
        ]
    );
    // A press at window-space (10, 590) translates to UI-space (10, 9)
    // with the primary button.
    let m = c.on_input_event(InputEvent::MouseDown { x: 10, y: 590, button: MouseButton::Left });
    assert_eq!(
        m,
        Some(UiMessage::Mouse {
            kind: MouseEventKind::Down,
            mask: ButtonMask::Primary,
            modifiers: 0,
            x: 10,
            y: 9,
        })
    );
}
