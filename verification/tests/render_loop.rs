use asimov_image_module::coalesce::Coalescer;
use asimov_image_module::frame::Frame;
use asimov_image_module::render::{
    PLACEHOLDER_HEIGHT, PLACEHOLDER_WIDTH, Screen, TickOutcome, frame_title, pack_rgb_pixels,
    render_tick,
};
use asimov_image_module::report::Error;

fn tiny_frame() -> Frame {
    Frame {
        id: Some("_:tiny".to_string()),
        width: Some(2),
        height: Some(1),
        data: vec![255, 0, 0, 0, 255, 0],
        source: None,
    }
}

#[test]
fn packing_puts_red_in_the_high_byte() {
    let data = vec![255, 0, 0, 0, 255, 0, 0, 0, 255, 1, 2, 3];
    let buf = pack_rgb_pixels(&data, 2, 2);
    assert_eq!(buf, vec![0x00FF0000, 0x0000FF00, 0x000000FF, 0x00010203]);
}

#[test]
fn screen_starts_on_black_placeholder() {
    let s = Screen::new();
    assert_eq!(s.width, PLACEHOLDER_WIDTH);
    assert_eq!(s.height, PLACEHOLDER_HEIGHT);
    assert_eq!(s.framebuffer.len(), PLACEHOLDER_WIDTH * PLACEHOLDER_HEIGHT);
    assert!(s.framebuffer.iter().all(|&px| px == 0));
    assert!(!s.displaying);
}

#[test]
fn valid_frame_reshapes_and_retitles() {
    let mut s = Screen::new();
    let title = s.apply_frame(&tiny_frame()).expect("the frame validates");
    assert_eq!(title, "_:tiny (2x1)");
    assert_eq!(s.width, 2);
    assert_eq!(s.height, 1);
    assert_eq!(s.framebuffer, vec![0x00FF0000, 0x0000FF00]);
    assert!(s.displaying);
}

#[test]
fn invalid_frame_keeps_previous_content() {
    let mut s = Screen::new();
    s.apply_frame(&tiny_frame()).expect("the frame validates");
    let mut bad = tiny_frame();
    bad.data.pop();
    let err = s.apply_frame(&bad).expect_err("short buffer must fail");
    assert!(matches!(err, Error::InvalidBuffer(_)));
    assert_eq!(s.width, 2);
    assert_eq!(s.height, 1);
    assert_eq!(s.framebuffer, vec![0x00FF0000, 0x0000FF00]);

    let mut headless = tiny_frame();
    headless.height = None;
    let err = s.apply_frame(&headless).expect_err("missing height must fail");
    match err {
        Error::InvalidDimensions(m) => assert_eq!(m, "missing image.height"),
        other => panic!("expected invalid dimensions, got {:?}", other),
    }
    assert_eq!(s.framebuffer, vec![0x00FF0000, 0x0000FF00]);
}

#[test]
fn title_falls_back_to_application_name() {
    assert_eq!(frame_title(&None, 320, 240), "ASIMOV (320x240)");
    assert_eq!(
        frame_title(&Some("file:/a.png".to_string()), 7680, 4320),
        "file:/a.png (7680x4320)"
    );
}

#[test]
fn tick_is_idle_on_empty_mailbox() {
    let mut s = Screen::new();
    let mut mail = Coalescer::new();
    assert!(matches!(render_tick(&mut s, &mut mail), TickOutcome::Idle));
    assert!(!s.displaying);
}

#[test]
fn tick_shows_latest_pushed_frame() {
    let mut s = Screen::new();
    let mut mail = Coalescer::new();
    let mut other = tiny_frame();
    other.id = Some("_:superseded".to_string());
    mail.push(other);
    mail.push(tiny_frame());
    match render_tick(&mut s, &mut mail) {
        TickOutcome::Shown(title) => assert_eq!(title, "_:tiny (2x1)"),
        outcome => panic!("expected the frame to be shown, got {:?}", outcome),
    }
    // The mailbox was drained: the next tick idles.
    assert!(matches!(render_tick(&mut s, &mut mail), TickOutcome::Idle));
}

#[test]
fn tick_rejects_invalid_frame_and_keeps_screen() {
    let mut s = Screen::new();
    let mut mail = Coalescer::new();
    let mut bad = tiny_frame();
    bad.width = None;
    mail.push(bad);
    assert!(matches!(
        render_tick(&mut s, &mut mail),
        TickOutcome::Rejected(Error::InvalidDimensions(_))
    ));
    assert_eq!(s.width, PLACEHOLDER_WIDTH);
    assert!(!s.displaying);
}
