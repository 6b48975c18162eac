//! The selection-menu state machine: a highlighted index over a list of
//! items, driven by arrow-key, enter and interrupt input read from a raw-mode
//! stream. Navigation saturates at both ends, so the index never leaves the
//! list; the whole-run routines also guarantee that raw mode is restored on
//! every confirming or aborting exit.
use vstd::prelude::*;
use crate::term::Terminal;

verus! {

/// The escape byte that begins a three-byte arrow-key sequence.
pub const KEY_ESC: u8 = 0x1b;

/// The third byte of the up-arrow sequence.
pub const KEY_ARROW_UP: u8 = 0x41;

/// The third byte of the down-arrow sequence.
pub const KEY_ARROW_DOWN: u8 = 0x42;

/// Line feed: confirms the highlighted item.
pub const KEY_LF: u8 = 0x0a;

/// Carriage return: confirms the highlighted item.
pub const KEY_CR: u8 = 0x0d;

/// The interrupt byte: aborts the menu (and the process).
pub const KEY_INTERRUPT: u8 = 0x03;

/// One decoded key event.
#[derive(Clone, Copy, PartialEq, Eq, Structural, Debug)]
pub enum Key {
    Up,
    Down,
    Enter,
    Interrupt,
    Other,
}

/// Decodes the key event that begins at `pos` and the position of the first
/// byte after it. An escape byte consumes the two bytes that follow it; an
/// escape sequence cut short by the end of the input is read as `Other` and
/// consumes the rest.
pub open spec fn spec_decode_key(input: Seq<u8>, pos: int) -> (Key, int)
    recommends
        0 <= pos < input.len(),
{
    let b = input[pos];
    if b == KEY_ESC {
        if pos + 3 <= input.len() {
            let third = input[pos + 2];
            if third == KEY_ARROW_UP {
                (Key::Up, pos + 3)
            } else if third == KEY_ARROW_DOWN {
                (Key::Down, pos + 3)
            } else {
                (Key::Other, pos + 3)
            }
        } else {
            (Key::Other, input.len() as int)
        }
    } else if b == KEY_LF || b == KEY_CR {
        (Key::Enter, pos + 1)
    } else if b == KEY_INTERRUPT {
        (Key::Interrupt, pos + 1)
    } else {
        (Key::Other, pos + 1)
    }
}

/// Reads one key event from `input` starting at `pos`.
pub fn decode_key(input: &[u8], pos: usize) -> (r: (Key, usize))
    requires
        pos < input@.len(),
    ensures
        (r.0, r.1 as int) == spec_decode_key(input@, pos as int),
        pos < r.1 <= input@.len(),
{
    let b = input[pos];
    if b == KEY_ESC {
        if input.len() - pos >= 3 {
            let third = input[pos + 2];
            if third == KEY_ARROW_UP {
                (Key::Up, pos + 3)
            } else if third == KEY_ARROW_DOWN {
                (Key::Down, pos + 3)
            } else {
                (Key::Other, pos + 3)
            }
        } else {
            (Key::Other, input.len())
        }
    } else if b == KEY_LF || b == KEY_CR {
        (Key::Enter, pos + 1)
    } else if b == KEY_INTERRUPT {
        (Key::Interrupt, pos + 1)
    } else {
        (Key::Other, pos + 1)
    }
}

/// Where the highlight moves on one navigation key: up and down saturate at
/// the first and last item, every other key leaves it in place.
pub open spec fn spec_nav_step(len: int, sel: int, key: Key) -> int {
    match key {
        Key::Up => if sel > 0 { sel - 1 } else { sel },
        Key::Down => if sel + 1 < len { sel + 1 } else { sel },
        _ => sel,
    }
}

/// Where the highlight stands after a whole sequence of navigation keys.
pub open spec fn spec_nav_run(len: int, sel: int, keys: Seq<Key>) -> int
    decreases keys.len(),
{
    if keys.len() == 0 {
        sel
    } else {
        spec_nav_run(len, spec_nav_step(len, sel, keys[0]), keys.drop_first())
    }
}

/// However long the key sequence and wherever the highlight starts inside
/// the list, navigation never moves it outside `[0, len)`.
pub proof fn lemma_menu_clamping(len: int, sel: int, keys: Seq<Key>)
    requires
        0 < len,
        0 <= sel < len,
    ensures
        0 <= spec_nav_run(len, sel, keys) < len,
    decreases keys.len(),
{
    if keys.len() > 0 {
        lemma_menu_clamping(len, spec_nav_step(len, sel, keys[0]), keys.drop_first());
    }
}

/// What one menu iteration does with a key event.
#[derive(Clone, Copy, PartialEq, Eq, Structural, Debug)]
pub enum MenuOutcome {
    /// Keep looping, with the highlight at this index.
    Continue(usize),
    /// The operator confirmed the item at this index.
    Confirmed(usize),
    /// The operator interrupted the menu.
    Aborted,
}

/// One iteration of a menu over `len` items with the highlight at `sel`:
/// maps the key event to navigation, confirmation or abort.
pub fn menu_step(len: usize, sel: usize, key: Key) -> (r: MenuOutcome)
    requires
        0 < len,
        sel < len,
    ensures
        match r {
            MenuOutcome::Continue(s) => {
                &&& s < len
                &&& s as int == spec_nav_step(len as int, sel as int, key)
                &&& (key is Up || key is Down || key is Other)
            },
            MenuOutcome::Confirmed(i) => i == sel && key is Enter,
            MenuOutcome::Aborted => key is Interrupt,
        },
{
    match key {
        Key::Up => MenuOutcome::Continue(if sel > 0 { sel - 1 } else { sel }),
        Key::Down => MenuOutcome::Continue(if sel + 1 < len { sel + 1 } else { sel }),
        Key::Enter => MenuOutcome::Confirmed(sel),
        Key::Interrupt => MenuOutcome::Aborted,
        Key::Other => MenuOutcome::Continue(sel),
    }
}

/// How a whole menu run ends.
#[derive(Clone, Copy, PartialEq, Eq, Structural, Debug)]
pub enum MenuResult {
    /// Enter confirmed the item at this index.
    Confirmed(usize),
    /// An interrupt aborted the menu.
    Aborted,
    /// The input ended before the operator confirmed or aborted; the real
    /// loop would still be waiting for a key.
    OutOfInput,
}

/// How a run of a static menu ends, given the whole key-input stream: the
/// highlight starts at the first item and follows each decoded key.
pub open spec fn spec_run_menu(len: int, sel: int, input: Seq<u8>, pos: int) -> MenuResult
    recommends
        0 < len,
        0 <= sel < len,
        0 <= pos,
    decreases input.len() - pos,
{
    if pos < 0 || pos >= input.len() {
        MenuResult::OutOfInput
    } else {
        let (key, next) = spec_decode_key(input, pos);
        match key {
            Key::Enter => MenuResult::Confirmed(sel as usize),
            Key::Interrupt => MenuResult::Aborted,
            _ => spec_run_menu(len, spec_nav_step(len, sel, key), input, next),
        }
    }
}

/// How a run of the device menu ends.
#[derive(Clone, Copy, PartialEq, Eq, Structural, Debug)]
pub enum DeviceMenuResult {
    /// Enter confirmed the item at the second index, within the device scan
    /// at the first index.
    Confirmed(usize, usize),
    /// An interrupt aborted the menu.
    Aborted,
    /// The key input ended before a choice was made.
    OutOfInput,
    /// Every supplied scan was consumed; the real loop would re-scan and
    /// keep waiting.
    OutOfScans,
}

/// How a run of the device menu ends, given the successive device scans and
/// the key-input stream. Each iteration consumes one scan; an empty scan
/// shows the no-devices notice and re-scans without reading a key; a
/// non-empty scan clamps the carried highlight into range and acts on one
/// key.
pub open spec fn spec_run_device_menu(
    scans: Seq<Vec<Vec<u8>>>,
    si: int,
    sel: int,
    input: Seq<u8>,
    pos: int,
) -> DeviceMenuResult
    decreases scans.len() - si,
    when 0 <= si <= scans.len() && 0 <= pos <= input.len() && 0 <= sel
{
    if si >= scans.len() {
        DeviceMenuResult::OutOfScans
    } else if scans[si]@.len() == 0 {
        spec_run_device_menu(scans, si + 1, sel, input, pos)
    } else {
        let len = scans[si]@.len() as int;
        let sel2 = if sel >= len {
            len - 1
        } else {
            sel
        };
        if pos >= input.len() {
            DeviceMenuResult::OutOfInput
        } else {
            let (key, next) = spec_decode_key(input, pos);
            match key {
                Key::Enter => DeviceMenuResult::Confirmed(si as usize, sel2 as usize),
                Key::Interrupt => DeviceMenuResult::Aborted,
                _ => spec_run_device_menu(scans, si + 1, spec_nav_step(len, sel2, key), input, next),
            }
        }
    }
}

/// Empty polls are transparent: however many empty scans precede the first
/// scan with an item, the device menu's outcome is exactly the outcome of
/// starting at that scan — the menu keeps re-polling without indexing the
/// empty lists and recovers as soon as an item becomes available.
pub proof fn lemma_empty_scans_skipped(
    scans: Seq<Vec<Vec<u8>>>,
    si: int,
    k: int,
    sel: int,
    input: Seq<u8>,
    pos: int,
)
    requires
        0 <= si <= k <= scans.len(),
        0 <= pos <= input.len(),
        0 <= sel,
        forall|j: int| si <= j < k ==> scans[j]@.len() == 0,
    ensures
        spec_run_device_menu(scans, si, sel, input, pos) == spec_run_device_menu(
            scans,
            k,
            sel,
            input,
            pos,
        ),
    decreases k - si,
{
    if si < k {
        lemma_empty_scans_skipped(scans, si + 1, k, sel, input, pos);
    }
}

/// Runs the device menu against the key bytes in `input`, re-reading the
/// candidate list each iteration from the successive scans in `scans`. An
/// empty scan never indexes the list: the notice is shown and the next scan
/// is taken, so the menu recovers as soon as a scan has an item. A confirmed
/// index is always inside the scan it came from, and on every confirming or
/// aborting exit the terminal is restored with wrapping re-enabled.
pub fn run_device_menu(scans: &Vec<Vec<Vec<u8>>>, input: &[u8], term: &mut Terminal) -> (r:
    DeviceMenuResult)
    ensures
        r == spec_run_device_menu(scans@, 0, 0, input@, 0),
        r matches DeviceMenuResult::Confirmed(si, ii) ==> si < scans@.len() && ii < scans@[si as int]@.len(),
        (r is Confirmed || r is Aborted) ==> {
            &&& final(term).raw == old(term).raw
            &&& final(term).wrap
        },
        (r is OutOfInput || r is OutOfScans) ==> final(term).raw,
{
    let saved = term.enter_raw();
    let mut si: usize = 0;
    let mut sel: usize = 0;
    let mut pos: usize = 0;
    loop
        invariant
            si <= scans@.len(),
            pos <= input@.len(),
            term.raw,
            saved.was_raw == old(term).raw,
            term.wrap == old(term).wrap || !term.wrap,
            spec_run_device_menu(scans@, 0, 0, input@, 0) == spec_run_device_menu(
                scans@,
                si as int,
                sel as int,
                input@,
                pos as int,
            ),
        decreases scans@.len() - si,
    {
        if si >= scans.len() {
            return DeviceMenuResult::OutOfScans;
        }
        let items = &scans[si];
        if items.len() == 0 {
            // The no-devices notice repaints from a cleared screen, which
            // suppresses wrapping, then the list is scanned again.
            term.suppress_wrap();
            si = si + 1;
        } else {
            let len = items.len();
            if sel >= len {
                sel = len - 1;
            }
            term.suppress_wrap();
            if pos >= input.len() {
                return DeviceMenuResult::OutOfInput;
            }
            let (key, next) = decode_key(input, pos);
            pos = next;
            match menu_step(len, sel, key) {
                MenuOutcome::Continue(s) => {
                    sel = s;
                    si = si + 1;
                },
                MenuOutcome::Confirmed(i) => {
                    term.enable_wrap();
                    term.restore(saved);
                    return DeviceMenuResult::Confirmed(si, i);
                },
                MenuOutcome::Aborted => {
                    term.enable_wrap();
                    term.restore(saved);
                    return DeviceMenuResult::Aborted;
                },
            }
        }
    }
}

/// Runs a menu over a fixed, non-empty item list against the key bytes in
/// `input`, mirroring one full-screen repaint per iteration. Engages raw mode
/// on entry; on every confirming or aborting exit the terminal is restored to
/// its prior mode with wrapping re-enabled.
pub fn run_static_menu(len: usize, input: &[u8], term: &mut Terminal) -> (r: MenuResult)
    requires
        0 < len,
    ensures
        r == spec_run_menu(len as int, 0, input@, 0),
        r matches MenuResult::Confirmed(i) ==> i < len,
        (r is Confirmed || r is Aborted) ==> {
            &&& final(term).raw == old(term).raw
            &&& final(term).wrap
        },
        r is OutOfInput ==> final(term).raw,
{
    let saved = term.enter_raw();
    let mut sel: usize = 0;
    let mut pos: usize = 0;
    loop
        invariant
            0 < len,
            sel < len,
            pos <= input@.len(),
            term.raw,
            term.wrap == old(term).wrap || !term.wrap,
            saved.was_raw == old(term).raw,
            spec_run_menu(len as int, 0, input@, 0) == spec_run_menu(
                len as int,
                sel as int,
                input@,
                pos as int,
            ),
        decreases input@.len() - pos,
    {
        // Each iteration fully repaints from a cleared screen, which also
        // suppresses line-wrapping until the menu exits.
        term.suppress_wrap();
        if pos >= input.len() {
            return MenuResult::OutOfInput;
        }
        let (key, next) = decode_key(input, pos);
        pos = next;
        match menu_step(len, sel, key) {
            MenuOutcome::Continue(s) => {
                sel = s;
            },
            MenuOutcome::Confirmed(i) => {
                term.enable_wrap();
                term.restore(saved);
                return MenuResult::Confirmed(i);
            },
            MenuOutcome::Aborted => {
                term.enable_wrap();
                term.restore(saved);
                return MenuResult::Aborted;
            },
        }
    }
}

} // verus!
