use asimov_image_module::stream::{StreamEvent, StreamStep, handle_line, process_lines, stream_step};

// One 1x1 black pixel: "AAAA" is the base64 of three zero bytes.
fn valid_line(id: &str) -> Vec<u8> {
    format!(
        "{{\"@type\":\"Image\",\"@id\":\"{}\",\"width\":1,\"height\":1,\"data\":\"data:image/rgb;base64,AAAA\"}}\n",
        id
    )
    .into_bytes()
}

#[test]
fn malformed_line_is_skipped_without_halting() {
    let lines = vec![
        valid_line("_:one"),
        b"this is not a record\n".to_vec(),
        valid_line("_:two"),
    ];
    let (forwarded, frames) = process_lines(&lines, false);
    assert!(forwarded.is_empty());
    assert_eq!(frames.len(), 2);
    assert_eq!(frames[0].id.as_deref(), Some("_:one"));
    assert_eq!(frames[1].id.as_deref(), Some("_:two"));
    assert_eq!(frames[0].width, Some(1));
    assert_eq!(frames[0].height, Some(1));
    assert_eq!(frames[0].data, vec![0, 0, 0]);
}

#[test]
fn passthrough_copies_every_line_byte_for_byte() {
    let lines: Vec<Vec<u8>> = vec![
        valid_line("_:one"),
        // Invalid UTF-8 and a CRLF terminator must both survive the tee.
        vec![0xFF, 0xFE, b'?', b'\r', b'\n'],
        b"\n".to_vec(),
        valid_line("_:two"),
    ];
    let (forwarded, frames) = process_lines(&lines, true);
    assert_eq!(forwarded, lines);
    assert_eq!(frames.len(), 2);
}

#[test]
fn crlf_terminated_record_still_parses() {
    let mut line = valid_line("_:crlf");
    line.pop();
    line.extend_from_slice(b"\r\n");
    let h = handle_line(&line, true);
    assert_eq!(h.forward.as_deref(), Some(line.as_slice()));
    assert_eq!(h.frame.expect("the record parses").id.as_deref(), Some("_:crlf"));
}

#[test]
fn handle_line_forwards_only_in_passthrough() {
    let line = b"no record here\n".to_vec();
    let h = handle_line(&line, true);
    assert_eq!(h.forward.as_deref(), Some(line.as_slice()));
    assert!(h.frame.is_none());
    let h = handle_line(&line, false);
    assert!(h.forward.is_none());
    assert!(h.frame.is_none());
}

#[test]
fn parsed_fields_carry_over() {
    let line = valid_line("_:field-check");
    let h = handle_line(&line, false);
    let f = h.frame.expect("the record parses");
    assert_eq!(f.id.as_deref(), Some("_:field-check"));
    assert_eq!(f.width, Some(1));
    assert_eq!(f.height, Some(1));
    assert_eq!(f.data, vec![0, 0, 0]);
    assert_eq!(f.source, None);
}

#[test]
fn read_failure_is_fatal_and_eof_is_clean() {
    let step = stream_step(StreamEvent::ReadFailure("broken pipe".to_string()), true);
    assert!(matches!(step, StreamStep::FatalRead(m) if m == "broken pipe"));
    let step = stream_step(StreamEvent::EndOfInput, true);
    assert!(matches!(step, StreamStep::Finished));
}

#[test]
fn line_event_is_handled_and_continues() {
    let step = stream_step(StreamEvent::Line(valid_line("_:x")), true);
    match step {
        StreamStep::Handled(h) => {
            assert_eq!(h.forward, Some(valid_line("_:x")));
            assert!(h.frame.is_some());
        },
        other => panic!("expected a handled line, got {:?}", other),
    }
}
