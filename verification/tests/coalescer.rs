use asimov_image_module::coalesce::Coalescer;
use asimov_image_module::frame::Frame;

fn frame_named(id: &str) -> Frame {
    Frame {
        id: Some(id.to_string()),
        width: Some(1),
        height: Some(1),
        data: vec![0, 0, 0],
        source: None,
    }
}

#[test]
fn drain_yields_latest_only() {
    let mut mail = Coalescer::new();
    mail.push(frame_named("f1"));
    mail.push(frame_named("f2"));
    mail.push(frame_named("f3"));
    let drained = mail.drain_latest();
    assert_eq!(drained, Some(frame_named("f3")));
    // The superseded frames are gone for good: the slot is empty now.
    assert_eq!(mail.drain_latest(), None);
}

#[test]
fn drain_on_empty_yields_nothing() {
    let mut mail = Coalescer::new();
    assert_eq!(mail.drain_latest(), None);
    assert_eq!(mail.drain_latest(), None);
}

#[test]
fn push_after_drain_delivers_again() {
    let mut mail = Coalescer::new();
    mail.push(frame_named("a"));
    assert_eq!(mail.drain_latest(), Some(frame_named("a")));
    mail.push(frame_named("b"));
    assert_eq!(mail.drain_latest(), Some(frame_named("b")));
    assert_eq!(mail.drain_latest(), None);
}
