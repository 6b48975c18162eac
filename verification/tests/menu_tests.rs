use serterm::menu::{
    decode_key, menu_step, run_device_menu, run_static_menu, DeviceMenuResult, Key, MenuOutcome,
    MenuResult,
};
use serterm::term::Terminal;

fn arrow(third: u8) -> Vec<u8> {
    vec![0x1b, 0x5b, third]
}

#[test]
fn decode_arrow_keys() {
    let up = arrow(0x41);
    let down = arrow(0x42);
    assert_eq!(decode_key(&up, 0), (Key::Up, 3));
    assert_eq!(decode_key(&down, 0), (Key::Down, 3));
}

#[test]
fn decode_enter_interrupt_other() {
    assert_eq!(decode_key(&[0x0a], 0), (Key::Enter, 1));
    assert_eq!(decode_key(&[0x0d], 0), (Key::Enter, 1));
    assert_eq!(decode_key(&[0x03], 0), (Key::Interrupt, 1));
    assert_eq!(decode_key(&[0x78], 0), (Key::Other, 1));
}

#[test]
fn decode_truncated_escape_is_other() {
    // An escape with only one following byte: read as Other, consuming the rest.
    assert_eq!(decode_key(&[0x1b, 0x5b], 0), (Key::Other, 2));
}

#[test]
fn step_saturates_at_both_ends() {
    // Up at the first item stays at the first item.
    assert_eq!(menu_step(3, 0, Key::Up), MenuOutcome::Continue(0));
    // Down at the last item stays at the last item.
    assert_eq!(menu_step(3, 2, Key::Down), MenuOutcome::Continue(2));
    assert_eq!(menu_step(3, 1, Key::Up), MenuOutcome::Continue(0));
    assert_eq!(menu_step(3, 1, Key::Down), MenuOutcome::Continue(2));
}

#[test]
fn step_never_leaves_range_under_any_sequence() {
    // Every up/down sequence over a 4-item list keeps the index in range.
    let keys = [
        Key::Down,
        Key::Down,
        Key::Down,
        Key::Down,
        Key::Down,
        Key::Up,
        Key::Up,
        Key::Up,
        Key::Up,
        Key::Up,
        Key::Up,
        Key::Down,
    ];
    let mut sel = 2usize;
    for k in keys {
        match menu_step(4, sel, k) {
            MenuOutcome::Continue(s) => {
                assert!(s < 4);
                sel = s;
            }
            _ => unreachable!(),
        }
    }
    assert_eq!(sel, 1);
}

#[test]
fn down_down_enter_selects_third_of_five() {
    // Down-arrow twice then enter in a 5-item menu starting at index 0.
    let mut input = arrow(0x42);
    input.extend(arrow(0x42));
    input.push(0x0d);
    let mut term = Terminal::new();
    let r = run_static_menu(5, &input, &mut term);
    assert_eq!(r, MenuResult::Confirmed(2));
    // The confirmed item of the baud menu is "38400".
    let items: Vec<Vec<u8>> = vec![
        serterm::baud::baud_label(serterm::baud::Baud::B9600),
        serterm::baud::baud_label(serterm::baud::Baud::B19200),
        serterm::baud::baud_label(serterm::baud::Baud::B38400),
        serterm::baud::baud_label(serterm::baud::Baud::B57600),
        serterm::baud::baud_label(serterm::baud::Baud::B115200),
    ];
    assert_eq!(items[2], vec![0x33, 0x38, 0x34, 0x30, 0x30]);
    assert_eq!(
        serterm::baud::parse_baud(&items[2]),
        Some(serterm::baud::Baud::B38400)
    );
}

#[test]
fn static_menu_restores_terminal_on_confirm() {
    let mut term = Terminal::new();
    assert!(!term.raw);
    let r = run_static_menu(2, &[0x0a], &mut term);
    assert_eq!(r, MenuResult::Confirmed(0));
    assert!(!term.raw);
    assert!(term.wrap);
}

#[test]
fn static_menu_restores_terminal_on_abort() {
    let mut term = Terminal::new();
    let r = run_static_menu(2, &[0x78, 0x03], &mut term);
    assert_eq!(r, MenuResult::Aborted);
    assert!(!term.raw);
    assert!(term.wrap);
}

#[test]
fn static_menu_overshoot_then_confirm() {
    // Five downs in a 3-item menu saturate at the last item.
    let mut input = Vec::new();
    for _ in 0..5 {
        input.extend(arrow(0x42));
    }
    input.push(0x0a);
    let mut term = Terminal::new();
    assert_eq!(run_static_menu(3, &input, &mut term), MenuResult::Confirmed(2));
}

#[test]
fn static_menu_out_of_input_keeps_waiting_raw() {
    let mut term = Terminal::new();
    let r = run_static_menu(3, &arrow(0x42), &mut term);
    assert_eq!(r, MenuResult::OutOfInput);
    // The process has not exited; the terminal is still raw.
    assert!(term.raw);
}

#[test]
fn device_menu_empty_scans_never_index() {
    // Only empty candidate lists: the menu re-polls without ever indexing.
    let scans: Vec<Vec<Vec<u8>>> = vec![vec![], vec![]];
    let mut term = Terminal::new();
    let r = run_device_menu(&scans, &[0x0a], &mut term);
    assert_eq!(r, DeviceMenuResult::OutOfScans);
}

#[test]
fn device_menu_recovers_once_item_appears() {
    // Two empty polls, then a device appears and is confirmed.
    let scans: Vec<Vec<Vec<u8>>> = vec![
        vec![],
        vec![],
        vec![b"/dev/cu.usbserial".to_vec()],
    ];
    let mut term = Terminal::new();
    let r = run_device_menu(&scans, &[0x0d], &mut term);
    assert_eq!(r, DeviceMenuResult::Confirmed(2, 0));
    assert!(!term.raw);
    assert!(term.wrap);
}

#[test]
fn device_menu_clamps_when_list_shrinks() {
    // The highlight sits at index 2, then the list shrinks to one item:
    // the highlight is clamped to the last remaining item.
    let a = b"a".to_vec();
    let b = b"b".to_vec();
    let c = b"c".to_vec();
    let scans: Vec<Vec<Vec<u8>>> = vec![
        vec![a.clone(), b.clone(), c.clone()],
        vec![a.clone(), b.clone(), c.clone()],
        vec![a.clone()],
    ];
    let mut input = arrow(0x42);
    input.extend(arrow(0x42));
    input.push(0x0a);
    let mut term = Terminal::new();
    let r = run_device_menu(&scans, &input, &mut term);
    assert_eq!(r, DeviceMenuResult::Confirmed(2, 0));
}

#[test]
fn device_menu_abort_restores() {
    let scans: Vec<Vec<Vec<u8>>> = vec![vec![b"x".to_vec()]];
    let mut term = Terminal::new();
    let r = run_device_menu(&scans, &[0x03], &mut term);
    assert_eq!(r, DeviceMenuResult::Aborted);
    assert!(!term.raw);
    assert!(term.wrap);
}
