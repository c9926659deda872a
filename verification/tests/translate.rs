use embedder_shim::coords::{DevicePoint, DeviceSize, HidpiScale, to_device_rect};
use embedder_shim::events::{EngineEvent, NativeEvent, ViewHandle};
use embedder_shim::translate::Translator;

fn setup() -> (Translator, embedder_shim::coords::Viewport, ViewHandle) {
    let viewport = to_device_rect(DeviceSize::new(1024, 768), HidpiScale::new(100));
    (Translator::new(), viewport, ViewHandle::new(1))
}

#[test]
fn resize_updates_viewport_and_emits_window_resize_once() {
    let (mut t, mut vp, view) = setup();
    let mut out: Vec<EngineEvent> = Vec::new();
    t.translate(
        view,
        &mut vp,
        &NativeEvent::Resized { size: DeviceSize::new(800, 600) },
        &mut out,
    );
    assert_eq!(vp.size, DeviceSize::new(800, 600));
    assert_eq!(vp.framebuffer, DeviceSize::new(800, 600));
    assert_eq!(out.len(), 2);
    assert!(matches!(out[0], EngineEvent::MoveResizeView { view: v, rect }
        if v == view && rect.size == DeviceSize::new(800, 600) && rect.origin == DevicePoint { x: 0, y: 0 }));
    assert_eq!(out[1], EngineEvent::WindowResize);
    let resize_count = out
        .iter()
        .filter(|e| matches!(e, EngineEvent::WindowResize))
        .count();
    assert_eq!(resize_count, 1);
}

#[test]
fn degenerate_resize_zero_width_is_noop() {
    let (mut t, mut vp, view) = setup();
    let before = vp;
    let mut out: Vec<EngineEvent> = Vec::new();
    t.translate(
        view,
        &mut vp,
        &NativeEvent::Resized { size: DeviceSize::new(0, 600) },
        &mut out,
    );
    assert_eq!(vp, before);
    assert!(out.is_empty());
}

#[test]
fn degenerate_resize_negative_height_is_noop() {
    let (mut t, mut vp, view) = setup();
    let before = vp;
    let mut out: Vec<EngineEvent> = Vec::new();
    t.translate(
        view,
        &mut vp,
        &NativeEvent::Resized { size: DeviceSize::new(800, -5) },
        &mut out,
    );
    assert_eq!(vp, before);
    assert!(out.is_empty());
    // Repeating it changes nothing either.
    t.translate(
        view,
        &mut vp,
        &NativeEvent::Resized { size: DeviceSize::new(800, -5) },
        &mut out,
    );
    assert_eq!(vp, before);
    assert!(out.is_empty());
}

#[test]
fn pointer_move_updates_cache_and_emits_move() {
    let (mut t, mut vp, view) = setup();
    let mut out: Vec<EngineEvent> = Vec::new();
    let p = DevicePoint { x: 40, y: 25 };
    t.translate(view, &mut vp, &NativeEvent::CursorMoved { position: p }, &mut out);
    assert_eq!(t.pointer, p);
    assert_eq!(out, vec![EngineEvent::PointerMove { position: p }]);
}

#[test]
fn down_then_up_emits_down_up_click_at_same_point() {
    let (mut t, mut vp, view) = setup();
    let mut out: Vec<EngineEvent> = Vec::new();
    let p = DevicePoint { x: 123, y: 456 };
    t.translate(view, &mut vp, &NativeEvent::CursorMoved { position: p }, &mut out);
    out.clear();
    t.translate(view, &mut vp, &NativeEvent::PrimaryButtonDown, &mut out);
    t.translate(view, &mut vp, &NativeEvent::PrimaryButtonUp, &mut out);
    assert_eq!(
        out,
        vec![
            EngineEvent::PointerDown { position: p },
            EngineEvent::PointerUp { position: p },
            EngineEvent::Click { position: p },
        ]
    );
}

#[test]
fn close_requested_emits_no_engine_event() {
    let (mut t, mut vp, view) = setup();
    let mut out: Vec<EngineEvent> = Vec::new();
    t.translate(view, &mut vp, &NativeEvent::CloseRequested, &mut out);
    assert!(out.is_empty());
}

#[test]
fn wake_emits_idle() {
    let (mut t, mut vp, view) = setup();
    let mut out: Vec<EngineEvent> = Vec::new();
    t.translate(view, &mut vp, &NativeEvent::Wake, &mut out);
    assert_eq!(out, vec![EngineEvent::Idle]);
}
