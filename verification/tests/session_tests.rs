use serterm::config::{resolve_entry, EntryDecision};
use serterm::session::{
    contains_byte, find_line_end, Counters, Session, SessionEnd, TxAction,
};
use serterm::term::Terminal;

#[test]
fn supplied_arguments_skip_the_menus() {
    // device and baud given as arguments: the entry is direct, no menu.
    let args: Vec<Vec<u8>> = vec![
        b"prog".to_vec(),
        b"/dev/fake0".to_vec(),
        b"9600".to_vec(),
    ];
    match resolve_entry(&args) {
        EntryDecision::Direct(d, b) => {
            assert_eq!(d, b"/dev/fake0".to_vec());
            assert_eq!(b, b"9600".to_vec());
        }
        EntryDecision::Interactive => panic!("menus must be skipped"),
    }
}

#[test]
fn missing_argument_goes_interactive() {
    let args: Vec<Vec<u8>> = vec![b"prog".to_vec(), b"/dev/fake0".to_vec()];
    assert!(matches!(resolve_entry(&args), EntryDecision::Interactive));
}

#[test]
fn counters_start_at_zero_and_add_exactly() {
    let mut c = Counters::new();
    assert_eq!(c.rx, 0);
    assert_eq!(c.tx, 0);
    c.add_received(5);
    c.add_sent(3);
    c.add_received(2);
    assert_eq!(c.rx, 7);
    assert_eq!(c.tx, 3);
}

#[test]
fn counters_never_decrease_under_interleaving() {
    let mut c = Counters::new();
    let mut last_rx = 0u64;
    let mut last_tx = 0u64;
    let ops: [(bool, u64); 6] = [(true, 4), (false, 1), (true, 0), (false, 9), (true, 2), (false, 0)];
    for (is_rx, n) in ops {
        if is_rx {
            c.add_received(n);
        } else {
            c.add_sent(n);
        }
        assert!(c.rx >= last_rx);
        assert!(c.tx >= last_tx);
        last_rx = c.rx;
        last_tx = c.tx;
    }
    assert_eq!(c.rx, 6);
    assert_eq!(c.tx, 10);
}

#[test]
fn line_without_toggle_is_forwarded_and_counted() {
    let mut s = Session::new();
    let a = s.on_line_input(b"hello\n");
    assert_eq!(a, TxAction::Forward);
    assert!(!s.raw_passthrough);
    assert_eq!(s.counters.tx, 6);
}

#[test]
fn toggle_line_switches_without_sending() {
    let mut s = Session::new();
    let a = s.on_line_input(b"ab\x12cd\n");
    assert_eq!(a, TxAction::Toggled);
    assert!(s.raw_passthrough);
    assert_eq!(s.counters.tx, 0);
}

#[test]
fn toggle_twice_returns_to_start_with_zero_net_bytes() {
    let mut s = Session::new();
    let before = s;
    assert_eq!(s.on_line_input(b"\x12\n"), TxAction::Toggled);
    assert!(s.raw_passthrough);
    assert_eq!(s.on_raw_input(0x12), TxAction::Toggled);
    assert!(!s.raw_passthrough);
    assert_eq!(s, before);
    assert_eq!(s.counters.tx, 0);
}

#[test]
fn raw_bytes_forwarded_one_by_one() {
    let mut s = Session::new();
    s.on_line_input(b"\x12\n");
    assert_eq!(s.on_raw_input(0x41), TxAction::Forward);
    assert_eq!(s.on_raw_input(0x1b), TxAction::Forward);
    assert_eq!(s.counters.tx, 2);
}

#[test]
fn raw_interrupt_and_eot_terminate() {
    let mut s = Session::new();
    s.on_line_input(b"\x12\n");
    assert_eq!(s.on_raw_input(0x03), TxAction::Terminate);
    assert_eq!(s.on_raw_input(0x04), TxAction::Terminate);
    assert_eq!(s.counters.tx, 0);
}

#[test]
fn transmit_run_forwards_plain_lines() {
    // Arguments supplied, session in line mode: typing "hello\n" forwards
    // exactly 6 bytes and the sent counter ends at 6.
    let mut s = Session::new();
    let mut term = Terminal::new();
    let (end, fwd) = serterm::session::run_transmit(&mut s, &mut term, b"hello\n");
    assert_eq!(end, SessionEnd::EndOfInput);
    assert_eq!(fwd, b"hello\n".to_vec());
    assert_eq!(s.counters.tx, 6);
    assert_eq!(s.counters.rx, 0);
    assert!(!term.raw);
}

#[test]
fn transmit_run_toggle_then_raw_then_eot() {
    // A line with the toggle byte switches to raw passthrough without being
    // sent; the next two bytes go out one by one; end-of-transmission stops.
    let mut s = Session::new();
    let mut term = Terminal::new();
    let (end, fwd) = serterm::session::run_transmit(&mut s, &mut term, b"\x12\nAB\x04junk");
    assert_eq!(end, SessionEnd::Terminated);
    assert_eq!(fwd, b"AB".to_vec());
    assert_eq!(s.counters.tx, 2);
    assert!(s.raw_passthrough);
    assert!(!term.raw);
}

#[test]
fn transmit_run_toggle_back_to_line_mode() {
    // Toggle into raw passthrough, toggle straight back, then a plain line.
    let mut s = Session::new();
    let mut term = Terminal::new();
    let (end, fwd) = serterm::session::run_transmit(&mut s, &mut term, b"\x12\n\x12ok\n");
    assert_eq!(end, SessionEnd::EndOfInput);
    assert_eq!(fwd, b"ok\n".to_vec());
    assert_eq!(s.counters.tx, 3);
    assert!(!s.raw_passthrough);
}

#[test]
fn transmit_run_never_forwards_the_toggle_byte() {
    let mut s = Session::new();
    let mut term = Terminal::new();
    let (_, fwd) = serterm::session::run_transmit(&mut s, &mut term, b"a\n\x12 b\n\x12cd\x12ef\x04");
    assert!(!fwd.contains(&0x12));
}

#[test]
fn transmit_run_empty_input_ends_cleanly() {
    let mut s = Session::new();
    let mut term = Terminal::new();
    let (end, fwd) = serterm::session::run_transmit(&mut s, &mut term, b"");
    assert_eq!(end, SessionEnd::EndOfInput);
    assert!(fwd.is_empty());
    assert_eq!(s.counters.tx, 0);
    assert!(!term.raw);
}

#[test]
fn line_end_finds_terminator_or_end() {
    assert_eq!(find_line_end(b"ab\ncd", 0), 3);
    assert_eq!(find_line_end(b"ab\ncd", 3), 5);
    assert_eq!(find_line_end(b"\n", 0), 1);
    assert_eq!(find_line_end(b"abc", 0), 3);
}

#[test]
fn contains_byte_finds_and_misses() {
    assert!(contains_byte(b"ab\x12c", 0x12));
    assert!(!contains_byte(b"abc", 0x12));
    assert!(!contains_byte(b"", 0x12));
}

#[test]
fn received_chunk_counts_and_renders() {
    let mut s = Session::new();
    let ts = b"[12:00:00.000] ".to_vec();
    let (out, at_start) = s.on_received_chunk(b"AB\nCD", true, &ts);
    assert_eq!(s.counters.rx, 5);
    assert_eq!(s.counters.tx, 0);
    let mut expected = ts.clone();
    expected.extend_from_slice(b"AB\n");
    expected.extend_from_slice(&ts);
    expected.extend_from_slice(b"CD");
    assert_eq!(out, expected);
    assert!(!at_start);
}
