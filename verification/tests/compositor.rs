//! Tests of the compositor: socket binding, the shell surface lifecycle,
//! event centralization, pointer clamping and the frame plan.

use localdesktop::compositor::{Compositor, FrameAction, PointerEvent};
use localdesktop::event::{
    centralize, clamp_coords, transform_normalized, CentralizedEvent, HostEvent, InputEvent,
    UnhandledHostEvent,
};
use localdesktop::keyboard::KeyState;
use localdesktop::registry::{ClientRegistry, SocketNamespace};
use localdesktop::render::{copy_region, flip_damage_rects, timestamp_ms, Rect};
use localdesktop::shell::{Mode, Output, Size};
use localdesktop::xkb::{KeyMapping, KeymapModel, LayoutDef, LedDefs};

fn plain_keymap() -> KeymapModel {
    KeymapModel {
        layouts: vec![LayoutDef {
            name: "us".to_string(),
            keys: vec![KeyMapping {
                keycode: 30,
                levels: vec![vec![0x61], vec![0x41]],
            }],
        }],
        leds: LedDefs { num: None, caps: None, scroll: None },
        text: "keymap".to_string(),
    }
}

fn build_compositor(w: i32, h: i32) -> (SocketNamespace, Compositor) {
    let mut ns = SocketNamespace::new();
    let c = Compositor::build(
        &mut ns,
        "/tmp/arch/tmp/wayland-0".to_string(),
        "seat-0".to_string(),
        plain_keymap(),
        Size { w, h },
    )
    .expect("first bind must succeed");
    (ns, c)
}

#[test]
fn binding_the_same_endpoint_twice_fails_and_first_stays_usable() {
    let mut ns = SocketNamespace::new();
    let first = ns.bind("/tmp/arch/tmp/wayland-0".to_string());
    assert!(first.is_ok(), "the first bind must succeed");
    let second = ns.bind("/tmp/arch/tmp/wayland-0".to_string());
    assert!(second.is_err(), "a second bind of the same path must fail");
    assert!(
        ns.is_bound(&"/tmp/arch/tmp/wayland-0".to_string()),
        "the first endpoint must remain usable"
    );
    let other = ns.bind("/tmp/arch/tmp/wayland-1".to_string());
    assert!(other.is_ok(), "a different path is still free");
}

#[test]
fn compositor_build_fails_on_taken_endpoint() {
    let mut ns = SocketNamespace::new();
    ns.bind("/tmp/arch/tmp/wayland-0".to_string()).unwrap();
    let second = Compositor::build(
        &mut ns,
        "/tmp/arch/tmp/wayland-0".to_string(),
        "seat-0".to_string(),
        plain_keymap(),
        Size { w: 640, h: 480 },
    );
    assert!(second.is_err(), "compositor construction must fail on a taken endpoint");
}

#[test]
fn new_toplevel_gets_output_size_and_activation() {
    let (_ns, mut c) = build_compositor(1920, 1080);
    c.state.new_toplevel(7);
    let surface = c.state.xdg_shell_state.toplevels.last().unwrap();
    assert_eq!(surface.pending.size, Some(Size { w: 1920, h: 1080 }));
    assert!(surface.pending.activated, "a new top-level surface must be activated");
    assert_eq!(surface.configures_sent, 1, "the client must be asked to configure");
}

#[test]
fn redraw_plan_dispatches_then_flushes_then_submits() {
    let (_ns, mut c) = build_compositor(800, 600);
    c.state.new_toplevel(1);
    c.state.new_toplevel(2);
    let surface = {
        let mut s = c.state.xdg_shell_state.toplevels.remove(0);
        s.register_frame_callback(31);
        s.register_frame_callback(32);
        s
    };
    c.state.xdg_shell_state.toplevels.insert(0, surface);
    let result = c.handle(CentralizedEvent::Redraw, 16);
    assert!(!result.exit);
    let plan = result.plan.expect("a redraw must produce a frame plan");
    assert_eq!(
        plan.actions,
        vec![
            FrameAction::AcceptClient,
            FrameAction::DispatchClients,
            FrameAction::FlushClients,
            FrameAction::Submit,
        ],
        "dispatch before flush before submit is mandatory"
    );
    assert_eq!(plan.damage, Rect { x: 0, y: 0, w: 800, h: 600 });
    assert_eq!(
        plan.background,
        localdesktop::render::Color { r: 26, g: 0, b: 0, a: 255 },
        "the target clears to the fixed background color"
    );
    assert_eq!(plan.elements, vec![1, 2], "surfaces are drawn in tree order");
    assert_eq!(plan.callbacks, vec![(31, 16), (32, 16)], "frame callbacks fire with the time");
    for s in &c.state.xdg_shell_state.toplevels {
        assert!(s.frame_callbacks.is_empty(), "a fired callback must not fire again");
    }
}

#[test]
fn close_request_exits() {
    let (_ns, mut c) = build_compositor(800, 600);
    let result = c.handle(CentralizedEvent::CloseRequested, 0);
    assert!(result.exit);
    assert!(result.plan.is_none());
}

#[test]
fn centralize_maps_known_events_and_rejects_unknown() {
    assert_eq!(centralize(HostEvent::CloseRequested), Ok(CentralizedEvent::CloseRequested));
    assert_eq!(centralize(HostEvent::RedrawRequested), Ok(CentralizedEvent::Redraw));
    assert_eq!(
        centralize(HostEvent::Resized { size: Size { w: 10, h: 20 } }),
        Ok(CentralizedEvent::Resized { size: Size { w: 10, h: 20 } })
    );
    assert_eq!(
        centralize(HostEvent::ScaleFactorChanged { scale_milli: 1500 }),
        Ok(CentralizedEvent::ScaleFactorChanged { scale_milli: 1500 })
    );
    let key = InputEvent::Keyboard { keycode: 30, state: KeyState::Pressed };
    assert_eq!(
        centralize(HostEvent::Input { event: key }),
        Ok(CentralizedEvent::Input { event: key })
    );
    assert_eq!(
        centralize(HostEvent::Unknown { code: 77 }),
        Err(UnhandledHostEvent { code: 77 }),
        "an unrecognized host event is a hard failure"
    );
}

fn output_of(w: i32, h: i32) -> Output {
    let mut o = Output::new(
        "out".to_string(),
        Size { w, h },
        "make".to_string(),
        "model".to_string(),
    );
    o.change_current_state(Some(Mode { size: Size { w, h }, refresh: 60000 }), None, None);
    o
}

#[test]
fn pointer_position_within_outputs_passes_through_and_outside_clamps() {
    // Two side-by-side outputs of equal height; combined width 2000.
    let outputs = vec![output_of(1000, 800), output_of(1000, 800)];
    let max_x = 2000i64;
    let x = transform_normalized(500_000, max_x);
    let y = transform_normalized(500_000, 800);
    assert_eq!((x, y), (1000, 400));
    assert_eq!(clamp_coords(&outputs, x, y), (1000, 400), "within the outputs nothing clamps");
    let x_out = transform_normalized(1_500_000, max_x);
    assert_eq!(x_out, 3000);
    assert_eq!(
        clamp_coords(&outputs, x_out, y),
        (2000, 400),
        "a position past the edge clamps to the combined output width"
    );
    assert_eq!(clamp_coords(&outputs, -5, 900), (0, 800));
    assert_eq!(clamp_coords(&Vec::new(), 123, 456), (123, 456));
}

#[test]
fn absolute_pointer_motion_is_clamped_into_the_outputs() {
    let (_ns, mut c) = build_compositor(1000, 800);
    c.state.outputs.push(output_of(1000, 800));
    c.state.new_toplevel(5);
    let event = CentralizedEvent::Input {
        event: InputEvent::PointerMotionAbsolute {
            x_ppm: 1_500_000,
            y_ppm: 500_000,
            time_msec: 9,
        },
    };
    c.handle(event, 9);
    assert_eq!((c.pointer.x, c.pointer.y), (2000, 400));
    assert!(matches!(
        c.pointer.events.first(),
        Some(PointerEvent::Motion { target: Some(5), x: 2000, y: 400, .. })
    ));
    assert!(matches!(c.pointer.events.last(), Some(PointerEvent::Frame)));
}

#[test]
fn touch_down_focuses_the_first_surface() {
    let (_ns, mut c) = build_compositor(640, 480);
    c.state.new_toplevel(11);
    c.state.new_toplevel(12);
    let event = CentralizedEvent::Input {
        event: InputEvent::TouchDown { slot: 0, x_ppm: 10, y_ppm: 10 },
    };
    c.handle(event, 3);
    let keyboard = c.seat.keyboard.as_ref().unwrap();
    assert_eq!(
        keyboard.current_focus(),
        Some(11),
        "only the first top-level surface is the interactive target"
    );
    assert_eq!(c.touch.events.len(), 1);
}

#[test]
fn resize_updates_only_the_stored_size() {
    let (_ns, mut c) = build_compositor(640, 480);
    c.state.new_toplevel(3);
    c.handle(CentralizedEvent::Resized { size: Size { w: 1024, h: 768 } }, 0);
    assert_eq!(c.state.size, Size { w: 1024, h: 768 });
    let surface = &c.state.xdg_shell_state.toplevels[0];
    assert_eq!(
        surface.pending.size,
        Some(Size { w: 640, h: 480 }),
        "a resize moves no surface; it is consumed on the next configure"
    );
    c.state.new_toplevel(4);
    assert_eq!(
        c.state.xdg_shell_state.toplevels[1].pending.size,
        Some(Size { w: 1024, h: 768 })
    );
}

#[test]
fn scale_factor_change_updates_the_output_description() {
    let (_ns, mut c) = build_compositor(640, 480);
    c.handle(CentralizedEvent::ScaleFactorChanged { scale_milli: 2000 }, 0);
    assert_eq!(c.output.scale_milli, 2000);
}

#[test]
fn client_registry_hands_out_fresh_ids_and_records_disconnects() {
    let mut reg = ClientRegistry::new();
    let a = reg.insert_client();
    let b = reg.insert_client();
    assert_ne!(a, b);
    assert_eq!(reg.alive_count(), 2);
    reg.disconnect_client(a);
    assert_eq!(reg.alive_count(), 1);
    assert!(!reg.clients[0].alive);
    assert!(reg.clients[1].alive);
}

#[test]
fn damage_rects_flip_against_the_drawable_height() {
    let rects = vec![Rect { x: 2, y: 10, w: 100, h: 20 }, Rect { x: 0, y: 0, w: 5, h: 5 }];
    let flipped = flip_damage_rects(&rects, 600);
    assert_eq!(flipped[0], Rect { x: 2, y: 570, w: 100, h: 20 });
    assert_eq!(flipped[1], Rect { x: 0, y: 595, w: 5, h: 5 });
}

#[test]
fn timestamps_truncate_at_thirty_two_bits() {
    assert_eq!(timestamp_ms(123), 123);
    assert_eq!(timestamp_ms(0x1_0000_0005), 5, "the elapsed counter wraps by truncation");
}

#[test]
fn region_copy_honors_the_source_stride() {
    // A 4x2 pixel texture with a stride of 20 bytes: one padding pixel a row.
    let mut data = Vec::new();
    for row in 0..2u8 {
        for col in 0..5u8 {
            for byte in 0..4u8 {
                data.push(row * 100 + col * 10 + byte);
            }
        }
    }
    let region = copy_region(&data, 20, 1, 0, 2, 2);
    assert_eq!(region.len(), 16);
    assert_eq!(&region[0..4], &[10, 11, 12, 13], "row zero starts at the stride offset");
    assert_eq!(&region[4..8], &[20, 21, 22, 23]);
    assert_eq!(&region[8..12], &[110, 111, 112, 113], "row one advances by the stride");
    assert_eq!(&region[12..16], &[120, 121, 122, 123]);
}

#[test]
fn render_errors_carry_their_description() {
    let err = localdesktop::render::PolarBearRenderError::new("dmabuf not supported".to_string());
    assert_eq!(err.message(), "dmabuf not supported");
}

#[test]
fn pointer_button_focuses_the_first_surface() {
    let (_ns, mut c) = build_compositor(640, 480);
    c.state.new_toplevel(21);
    c.state.new_toplevel(22);
    let event = CentralizedEvent::Input {
        event: InputEvent::PointerButton { button: 0x110, pressed: true, time_msec: 8 },
    };
    c.handle(event, 8);
    let keyboard = c.seat.keyboard.as_ref().unwrap();
    assert_eq!(keyboard.current_focus(), Some(21));
    assert!(matches!(
        c.pointer.events[c.pointer.events.len() - 2],
        PointerEvent::Button { button: 0x110, pressed: true, .. }
    ));
    assert!(matches!(c.pointer.events.last(), Some(PointerEvent::Frame)));
}

#[test]
fn each_handled_key_event_draws_a_fresh_serial() {
    let (_ns, mut c) = build_compositor(640, 480);
    let before = c.serials.next;
    c.handle(
        CentralizedEvent::Input {
            event: InputEvent::Keyboard { keycode: 30, state: KeyState::Pressed },
        },
        1,
    );
    let between = c.serials.next;
    c.handle(
        CentralizedEvent::Input {
            event: InputEvent::Keyboard { keycode: 30, state: KeyState::Released },
        },
        2,
    );
    let after = c.serials.next;
    assert_eq!(between, before + 1, "one key batch draws exactly one serial");
    assert_eq!(after, between + 1);
    c.handle(CentralizedEvent::Redraw, 3);
    assert_eq!(c.serials.next, after, "a redraw mints nothing");
}

#[test]
fn touch_down_focus_uses_the_minted_serial() {
    let (_ns, mut c) = build_compositor(640, 480);
    c.state.new_toplevel(11);
    let minted = c.serials.next;
    c.handle(
        CentralizedEvent::Input { event: InputEvent::TouchDown { slot: 0, x_ppm: 1, y_ppm: 1 } },
        3,
    );
    let keyboard = c.seat.keyboard.as_ref().unwrap();
    assert_eq!(keyboard.current_focus(), Some(11));
    assert_eq!(
        keyboard.internal.focus.unwrap().1.value,
        minted,
        "the focus change carries the freshly minted serial"
    );
}
