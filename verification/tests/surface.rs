use embedder_shim::coords::DeviceSize;
use embedder_shim::surface::{Gl, GlError, PresentError, GL_NO_ERROR};

#[test]
fn successful_present_balances_acquire_and_release() {
    let mut g = Gl::new(5);
    let r = g.present_frame(77, DeviceSize::new(640, 480), DeviceSize::new(640, 480), GL_NO_ERROR);
    let op = r.expect("clean present");
    assert_eq!(op.read_fb, 5);
    assert_eq!(op.texture, 77);
    assert_eq!(op.source, DeviceSize::new(640, 480));
    assert_eq!(op.dest, DeviceSize::new(640, 480));
    assert_eq!(g.acquired, 1);
    assert_eq!(g.released, 1);
    assert_eq!(g.bound_texture, None);
}

#[test]
fn failed_blit_still_releases_exactly_once() {
    let mut g = Gl::new(5);
    // 0x0506 is a typical framebuffer error code; any non-zero code drops the frame.
    let r = g.present_frame(77, DeviceSize::new(640, 480), DeviceSize::new(640, 480), 0x0506);
    assert_eq!(r, Err(GlError { code: 0x0506 }));
    assert_eq!(g.acquired, 1);
    assert_eq!(g.released, 1);
    assert_eq!(g.bound_texture, None);
}

#[test]
fn every_simulated_outcome_keeps_the_ledger_balanced() {
    let mut g = Gl::new(9);
    let outcomes: Vec<u32> = vec![GL_NO_ERROR, 1280, GL_NO_ERROR, 1282, 1285, GL_NO_ERROR];
    let mut presents: u64 = 0;
    for code in outcomes {
        let r = g.present_frame(3, DeviceSize::new(10, 10), DeviceSize::new(20, 20), code);
        assert_eq!(r.is_ok(), code == GL_NO_ERROR);
        presents += 1;
        assert_eq!(g.acquired, presents);
        assert_eq!(g.released, presents);
        assert_eq!(g.bound_texture, None);
    }
}

#[test]
fn stepwise_bind_blit_release() {
    let mut g = Gl::new(2);
    g.bind_surface_texture(11);
    assert_eq!(g.bound_texture, Some(11));
    assert_eq!(g.acquired, 1);
    assert_eq!(g.released, 0);
    let op = g
        .draw_texture(DeviceSize::new(300, 200), DeviceSize::new(600, 400), GL_NO_ERROR)
        .expect("clean blit");
    assert_eq!(op.texture, 11);
    assert_eq!(op.read_fb, 2);
    assert_eq!(op.dest, DeviceSize::new(600, 400));
    g.release_surface_texture();
    assert_eq!(g.bound_texture, None);
    assert_eq!(g.released, 1);
}

#[test]
fn missing_front_surface_is_fatal_and_binds_nothing() {
    let mut g = Gl::new(4);
    let r = g.present_from_front(None, DeviceSize::new(10, 10), DeviceSize::new(10, 10), GL_NO_ERROR);
    assert_eq!(r, Err(PresentError::NoFrontSurface));
    assert_eq!(g.acquired, 0);
    assert_eq!(g.released, 0);

    let ok = g.present_from_front(Some(6), DeviceSize::new(10, 10), DeviceSize::new(10, 10), GL_NO_ERROR);
    let op = ok.expect("clean present");
    assert_eq!(op.texture, 6);
    assert_eq!(g.acquired, 1);
    assert_eq!(g.released, 1);

    let dropped = g.present_from_front(Some(6), DeviceSize::new(10, 10), DeviceSize::new(10, 10), 1286);
    assert_eq!(dropped, Err(PresentError::Blit { error: GlError { code: 1286 } }));
    assert_eq!(g.acquired, 2);
    assert_eq!(g.released, 2);
}

#[test]
fn assert_no_error_classifies_codes() {
    let g = Gl::new(0);
    assert!(g.assert_no_error(GL_NO_ERROR).is_ok());
    assert_eq!(g.assert_no_error(1281), Err(GlError { code: 1281 }));
}
