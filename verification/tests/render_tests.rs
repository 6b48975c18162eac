use serterm::render::{
    clear_sequence, clock_fields, dec_bytes, enable_wrap_sequence, format_timestamp, menu_frame,
    render_received, status_line, status_paint,
};

#[test]
fn clear_and_wrap_sequences() {
    assert_eq!(clear_sequence(), b"\x1b[2J\x1b[H\x1b[?7l".to_vec());
    assert_eq!(enable_wrap_sequence(), b"\x1b[?7h".to_vec());
}

#[test]
fn clock_fields_wrap_by_unit() {
    assert_eq!(clock_fields(3661, 5), (1, 1, 1));
    assert_eq!(clock_fields(0, 0), (0, 0, 0));
    // 23:59:59 one second before midnight, and the day wraps.
    assert_eq!(clock_fields(86399, 999), (23, 59, 59));
    assert_eq!(clock_fields(86400, 0), (0, 0, 0));
}

#[test]
fn timestamp_is_zero_padded() {
    assert_eq!(format_timestamp(1, 2, 3, 4), b"[01:02:03.004] ".to_vec());
    assert_eq!(format_timestamp(23, 59, 59, 999), b"[23:59:59.999] ".to_vec());
    assert_eq!(format_timestamp(0, 0, 0, 0), b"[00:00:00.000] ".to_vec());
}

#[test]
fn decimal_rendering() {
    assert_eq!(dec_bytes(0), b"0".to_vec());
    assert_eq!(dec_bytes(7), b"7".to_vec());
    assert_eq!(dec_bytes(10), b"10".to_vec());
    assert_eq!(dec_bytes(65536), b"65536".to_vec());
    assert_eq!(dec_bytes(u64::MAX), b"18446744073709551615".to_vec());
}

#[test]
fn status_line_line_mode_exact() {
    // The status for a session opened as /dev/fake0 at 9600, in line mode,
    // after 6 bytes sent.
    let line = status_line(b"/dev/fake0", b"9600", false, 0, 6);
    assert_eq!(
        line,
        b"DEV: /dev/fake0 | BAUD: 9600 | MODE: LINE | RX: 0 | TX: 6".to_vec()
    );
    let text = String::from_utf8(line).unwrap();
    assert!(text.contains("BAUD: 9600"));
    assert!(text.contains("MODE: LINE"));
}

#[test]
fn status_line_raw_mode_exact() {
    let line = status_line(b"/dev/cu.usb", b"115200", true, 42, 7);
    assert_eq!(
        line,
        b"DEV: /dev/cu.usb | BAUD: 115200 | MODE: RAW | RX: 42 | TX: 7".to_vec()
    );
}

#[test]
fn status_paint_is_save_move_clear_write_restore() {
    let painted = status_paint(b"S");
    assert_eq!(painted, b"\x1b[s\x1b[999;1H\x1b[2KS\x1b[u".to_vec());
}

#[test]
fn menu_frame_marks_selected_item() {
    let items: Vec<Vec<u8>> = vec![b"one".to_vec(), b"two".to_vec()];
    let frame = menu_frame(b"Pick", &items, 1);
    let mut expected = b"\x1b[2J\x1b[H\x1b[?7l".to_vec();
    expected.extend_from_slice(b"Pick\r\n");
    expected.extend_from_slice(b"--------------------\r\n");
    expected.extend_from_slice(b"  one\r\n");
    expected.extend_from_slice(b"> two\r\n");
    assert_eq!(frame, expected);
}

#[test]
fn received_chunk_gets_two_timestamped_segments() {
    // Receiving "AB\nCD" produces exactly two timestamp-prefixed segments:
    // one before A (covering "AB\n") and one before C (covering "CD").
    let ts = b"[10:00:00.000] ".to_vec();
    let (out, at_start) = render_received(b"AB\nCD", true, &ts);
    let mut expected = ts.clone();
    expected.extend_from_slice(b"AB\n");
    expected.extend_from_slice(&ts);
    expected.extend_from_slice(b"CD");
    assert_eq!(out, expected);
    assert!(!at_start);
    // Exactly two timestamp prefixes appear.
    let text = String::from_utf8(out).unwrap();
    assert_eq!(text.matches("[10:00:00.000] ").count(), 2);
}

#[test]
fn received_chunk_mid_line_has_no_prefix() {
    let ts = b"[10:00:00.000] ".to_vec();
    let (out, at_start) = render_received(b"CD", false, &ts);
    assert_eq!(out, b"CD".to_vec());
    assert!(!at_start);
}

#[test]
fn received_chunk_trailing_newline_leaves_line_start() {
    let ts = b"T ".to_vec();
    let (out, at_start) = render_received(b"x\n", true, &ts);
    assert_eq!(out, b"T x\n".to_vec());
    assert!(at_start);
}

#[test]
fn received_chunk_empty_is_empty() {
    let ts = b"T ".to_vec();
    let (out, at_start) = render_received(b"", true, &ts);
    assert!(out.is_empty());
    assert!(at_start);
}
