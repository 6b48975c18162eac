//! Byte-exact rendering: the escape sequences for full repaints and for the
//! atomic status-line update, the millisecond wall-clock timestamp prefix,
//! the menu frame with its highlight marker, and the timestamp-prefixed
//! rendering of received chunks. Everything here maps plain values to the
//! exact bytes the platform layer writes to the terminal.
use vstd::prelude::*;
use crate::session::NL_BYTE;
use crate::util::push_bytes;

verus! {

/// Clear screen, cursor home, and suppress line-wrapping: the prefix of
/// every full menu repaint.
pub open spec fn spec_clear_sequence() -> Seq<u8> {
    seq![0x1bu8, 0x5b, 0x32, 0x4a, 0x1b, 0x5b, 0x48, 0x1b, 0x5b, 0x3f, 0x37, 0x6c]
}

/// Re-enable line-wrapping: emitted when a menu exits.
pub open spec fn spec_enable_wrap_sequence() -> Seq<u8> {
    seq![0x1bu8, 0x5b, 0x3f, 0x37, 0x68]
}

/// The bytes that clear the screen, home the cursor and suppress wrapping.
pub fn clear_sequence() -> (r: Vec<u8>)
    ensures
        r@ == spec_clear_sequence(),
{
    let mut v: Vec<u8> = Vec::new();
    v.push(0x1b);
    v.push(0x5b);
    v.push(0x32);
    v.push(0x4a);
    v.push(0x1b);
    v.push(0x5b);
    v.push(0x48);
    v.push(0x1b);
    v.push(0x5b);
    v.push(0x3f);
    v.push(0x37);
    v.push(0x6c);
    proof {
        assert(v@ =~= spec_clear_sequence());
    }
    v
}

/// The bytes that re-enable line-wrapping.
pub fn enable_wrap_sequence() -> (r: Vec<u8>)
    ensures
        r@ == spec_enable_wrap_sequence(),
{
    let mut v: Vec<u8> = Vec::new();
    v.push(0x1b);
    v.push(0x5b);
    v.push(0x3f);
    v.push(0x37);
    v.push(0x68);
    proof {
        assert(v@ =~= spec_enable_wrap_sequence());
    }
    v
}

/// The wall-clock fields shown in a timestamp, from seconds since the epoch
/// and the millisecond remainder: 24-hour clock, minutes, seconds.
pub fn clock_fields(total_secs: u64, subsec_millis: u32) -> (r: (u64, u64, u64))
    ensures
        r.0 == (total_secs / 3600) % 24,
        r.1 == (total_secs / 60) % 60,
        r.2 == total_secs % 60,
        r.0 < 24,
        r.1 < 60,
        r.2 < 60,
{
    let h = (total_secs / 3600) % 24;
    let m = (total_secs / 60) % 60;
    let s = total_secs % 60;
    (h, m, s)
}

/// A value below 100 as two decimal digit bytes, zero-padded.
pub open spec fn spec_two_digits(n: int) -> Seq<u8> {
    seq![(0x30 + n / 10) as u8, (0x30 + n % 10) as u8]
}

/// A value below 1000 as three decimal digit bytes, zero-padded.
pub open spec fn spec_three_digits(n: int) -> Seq<u8> {
    seq![(0x30 + n / 100) as u8, (0x30 + (n / 10) % 10) as u8, (0x30 + n % 10) as u8]
}

/// The timestamp prefix put before the first byte of every received line:
/// `[HH:MM:SS.mmm] `.
pub open spec fn spec_timestamp(h: int, m: int, s: int, ms: int) -> Seq<u8> {
    seq![0x5bu8] + spec_two_digits(h) + seq![0x3au8] + spec_two_digits(m) + seq![0x3au8]
        + spec_two_digits(s) + seq![0x2eu8] + spec_three_digits(ms) + seq![0x5du8, 0x20u8]
}

/// Renders the `[HH:MM:SS.mmm] ` timestamp prefix.
pub fn format_timestamp(h: u64, m: u64, s: u64, ms: u32) -> (r: Vec<u8>)
    requires
        h < 24,
        m < 60,
        s < 60,
        ms < 1000,
    ensures
        r@ == spec_timestamp(h as int, m as int, s as int, ms as int),
        r@.len() == 15,
{
    let mut v: Vec<u8> = Vec::new();
    v.push(0x5b);
    v.push(0x30 + (h / 10) as u8);
    v.push(0x30 + (h % 10) as u8);
    v.push(0x3a);
    v.push(0x30 + (m / 10) as u8);
    v.push(0x30 + (m % 10) as u8);
    v.push(0x3a);
    v.push(0x30 + (s / 10) as u8);
    v.push(0x30 + (s % 10) as u8);
    v.push(0x2e);
    v.push(0x30 + (ms / 100) as u8);
    v.push(0x30 + ((ms / 10) % 10) as u8);
    v.push(0x30 + (ms % 10) as u8);
    v.push(0x5d);
    v.push(0x20);
    proof {
        assert(v@ =~= spec_timestamp(h as int, m as int, s as int, ms as int));
    }
    v
}

/// A value as its shortest decimal digit string.
pub open spec fn spec_dec_bytes(n: int) -> Seq<u8>
    decreases n,
    when n >= 0
{
    if n < 10 {
        seq![(0x30 + n) as u8]
    } else {
        spec_dec_bytes(n / 10) + seq![(0x30 + n % 10) as u8]
    }
}

/// Renders a counter value in decimal.
pub fn dec_bytes(n: u64) -> (r: Vec<u8>)
    ensures
        r@ == spec_dec_bytes(n as int),
        r@.len() >= 1,
    decreases n,
{
    if n < 10 {
        let mut v: Vec<u8> = Vec::new();
        v.push(0x30 + n as u8);
        proof {
            assert(v@ =~= spec_dec_bytes(n as int));
        }
        v
    } else {
        let mut v = dec_bytes(n / 10);
        v.push(0x30 + (n % 10) as u8);
        proof {
            assert(v@ =~= spec_dec_bytes(n as int));
        }
        v
    }
}

/// `DEV: ` — the label before the device path.
pub open spec fn spec_lit_dev() -> Seq<u8> {
    seq![0x44u8, 0x45, 0x56, 0x3a, 0x20]
}

/// ` | ` — the separator between status fields.
pub open spec fn spec_lit_sep() -> Seq<u8> {
    seq![0x20u8, 0x7c, 0x20]
}

/// `BAUD: ` — the label before the baud rate.
pub open spec fn spec_lit_baud() -> Seq<u8> {
    seq![0x42u8, 0x41, 0x55, 0x44, 0x3a, 0x20]
}

/// `MODE: ` — the label before the mode word.
pub open spec fn spec_lit_mode() -> Seq<u8> {
    seq![0x4du8, 0x4f, 0x44, 0x45, 0x3a, 0x20]
}

/// `RAW` — the mode word of raw passthrough.
pub open spec fn spec_lit_raw() -> Seq<u8> {
    seq![0x52u8, 0x41, 0x57]
}

/// `LINE` — the mode word of line mode.
pub open spec fn spec_lit_line() -> Seq<u8> {
    seq![0x4cu8, 0x49, 0x4e, 0x45]
}

/// `RX: ` — the label before the receive counter.
pub open spec fn spec_lit_rx() -> Seq<u8> {
    seq![0x52u8, 0x58, 0x3a, 0x20]
}

/// `TX: ` — the label before the transmit counter.
pub open spec fn spec_lit_tx() -> Seq<u8> {
    seq![0x54u8, 0x58, 0x3a, 0x20]
}

/// The one-line status summary:
/// `DEV: <dev> | BAUD: <baud> | MODE: <RAW|LINE> | RX: <rx> | TX: <tx>`.
pub open spec fn spec_status_line(dev: Seq<u8>, baud: Seq<u8>, raw: bool, rx: u64, tx: u64) -> Seq<
    u8,
> {
    spec_lit_dev() + dev + spec_lit_sep() + spec_lit_baud() + baud + spec_lit_sep()
        + spec_lit_mode() + (if raw {
        spec_lit_raw()
    } else {
        spec_lit_line()
    }) + spec_lit_sep() + spec_lit_rx() + spec_dec_bytes(rx as int) + spec_lit_sep()
        + spec_lit_tx() + spec_dec_bytes(tx as int)
}

/// Renders the status summary for the given device, rate, mode and counters.
#[verifier::rlimit(50)]
pub fn status_line(dev: &[u8], baud: &[u8], raw: bool, rx: u64, tx: u64) -> (r: Vec<u8>)
    ensures
        r@ == spec_status_line(dev@, baud@, raw, rx, tx),
{
    let mut v: Vec<u8> = Vec::new();
    v.push(0x44);
    v.push(0x45);
    v.push(0x56);
    v.push(0x3a);
    v.push(0x20);
    push_bytes(&mut v, dev);
    v.push(0x20);
    v.push(0x7c);
    v.push(0x20);
    v.push(0x42);
    v.push(0x41);
    v.push(0x55);
    v.push(0x44);
    v.push(0x3a);
    v.push(0x20);
    push_bytes(&mut v, baud);
    v.push(0x20);
    v.push(0x7c);
    v.push(0x20);
    v.push(0x4d);
    v.push(0x4f);
    v.push(0x44);
    v.push(0x45);
    v.push(0x3a);
    v.push(0x20);
    if raw {
        v.push(0x52);
        v.push(0x41);
        v.push(0x57);
    } else {
        v.push(0x4c);
        v.push(0x49);
        v.push(0x4e);
        v.push(0x45);
    }
    v.push(0x20);
    v.push(0x7c);
    v.push(0x20);
    v.push(0x52);
    v.push(0x58);
    v.push(0x3a);
    v.push(0x20);
    let rxd = dec_bytes(rx);
    push_bytes(&mut v, rxd.as_slice());
    v.push(0x20);
    v.push(0x7c);
    v.push(0x20);
    v.push(0x54);
    v.push(0x58);
    v.push(0x3a);
    v.push(0x20);
    let txd = dec_bytes(tx);
    push_bytes(&mut v, txd.as_slice());
    proof {
        assert(v@ =~= spec_status_line(dev@, baud@, raw, rx, tx));
    }
    v
}

/// The atomic status-repaint unit around a rendered status line: save the
/// cursor, jump to the bottom row, clear that row, write the line, restore
/// the cursor. The platform layer writes this sequence in one call so no
/// receive output can interleave inside it.
pub open spec fn spec_status_paint(line: Seq<u8>) -> Seq<u8> {
    seq![0x1bu8, 0x5b, 0x73, 0x1b, 0x5b, 0x39, 0x39, 0x39, 0x3b, 0x31, 0x48, 0x1b, 0x5b, 0x32, 0x4b]
        + line + seq![0x1bu8, 0x5b, 0x75]
}

/// Frames a rendered status line in the cursor save/move/clear/restore
/// sequence.
pub fn status_paint(line: &[u8]) -> (r: Vec<u8>)
    ensures
        r@ == spec_status_paint(line@),
{
    let mut v: Vec<u8> = Vec::new();
    v.push(0x1b);
    v.push(0x5b);
    v.push(0x73);
    v.push(0x1b);
    v.push(0x5b);
    v.push(0x39);
    v.push(0x39);
    v.push(0x39);
    v.push(0x3b);
    v.push(0x31);
    v.push(0x48);
    v.push(0x1b);
    v.push(0x5b);
    v.push(0x32);
    v.push(0x4b);
    push_bytes(&mut v, line);
    v.push(0x1b);
    v.push(0x5b);
    v.push(0x75);
    proof {
        assert(v@ =~= spec_status_paint(line@));
    }
    v
}

/// `No devices found\r\n` — what the device menu shows over a cleared
/// screen while the candidate list is empty.
pub open spec fn spec_no_devices_notice() -> Seq<u8> {
    seq![0x4eu8, 0x6f, 0x20, 0x64, 0x65, 0x76, 0x69, 0x63, 0x65, 0x73, 0x20, 0x66, 0x6f, 0x75,
        0x6e, 0x64, 0x0d, 0x0a]
}

/// The empty-list notice frame: cleared screen, then the notice row.
pub fn no_devices_notice() -> (r: Vec<u8>)
    ensures
        r@ == spec_clear_sequence() + spec_no_devices_notice(),
{
    let mut v = clear_sequence();
    v.push(0x4e);
    v.push(0x6f);
    v.push(0x20);
    v.push(0x64);
    v.push(0x65);
    v.push(0x76);
    v.push(0x69);
    v.push(0x63);
    v.push(0x65);
    v.push(0x73);
    v.push(0x20);
    v.push(0x66);
    v.push(0x6f);
    v.push(0x75);
    v.push(0x6e);
    v.push(0x64);
    v.push(0x0d);
    v.push(0x0a);
    proof {
        assert(v@ =~= spec_clear_sequence() + spec_no_devices_notice());
    }
    v
}

/// `\r\n` — the row terminator used while the terminal is raw.
pub open spec fn spec_crlf() -> Seq<u8> {
    seq![0x0du8, 0x0au8]
}

/// The separator row under a menu title: twenty dashes.
pub open spec fn spec_separator_row() -> Seq<u8> {
    Seq::new(20, |i: int| 0x2du8)
}

/// One rendered menu row: the highlighted item behind the `> ` marker,
/// every other item behind two spaces.
pub open spec fn spec_menu_row(item: Seq<u8>, selected: bool) -> Seq<u8> {
    (if selected {
        seq![0x3eu8, 0x20u8]
    } else {
        seq![0x20u8, 0x20u8]
    }) + item + spec_crlf()
}

/// The rendered rows of the items from `i` on, with the row at `sel`
/// highlighted.
pub open spec fn spec_menu_rows(items: Seq<Vec<u8>>, sel: int, i: int) -> Seq<u8>
    decreases items.len() - i,
    when 0 <= i <= items.len()
{
    if i >= items.len() {
        Seq::<u8>::empty()
    } else {
        spec_menu_row(items[i]@, i == sel) + spec_menu_rows(items, sel, i + 1)
    }
}

/// A whole menu repaint: cleared screen, title, separator row, and every
/// item on its own row with the selected one marked.
pub open spec fn spec_menu_frame(title: Seq<u8>, items: Seq<Vec<u8>>, sel: int) -> Seq<u8> {
    spec_clear_sequence() + title + spec_crlf() + spec_separator_row() + spec_crlf()
        + spec_menu_rows(items, sel, 0)
}

/// Renders one full menu repaint for the given title, items and highlight.
pub fn menu_frame(title: &[u8], items: &Vec<Vec<u8>>, sel: usize) -> (r: Vec<u8>)
    ensures
        r@ == spec_menu_frame(title@, items@, sel as int),
{
    let mut v = clear_sequence();
    push_bytes(&mut v, title);
    v.push(0x0d);
    v.push(0x0a);
    let mut d: usize = 0;
    let ghost before_dashes = v@;
    while d < 20
        invariant
            d <= 20,
            v@ =~= before_dashes + spec_separator_row().subrange(0, d as int),
        decreases 20 - d,
    {
        v.push(0x2d);
        proof {
            assert(v@ =~= before_dashes + spec_separator_row().subrange(0, d + 1 as int));
        }
        d += 1;
    }
    proof {
        assert(spec_separator_row().subrange(0, 20) =~= spec_separator_row());
    }
    v.push(0x0d);
    v.push(0x0a);
    proof {
        assert(v@ =~= spec_clear_sequence() + title@ + spec_crlf() + spec_separator_row()
            + spec_crlf());
    }
    let ghost head = v@;
    let mut i: usize = 0;
    while i < items.len()
        invariant
            i <= items@.len(),
            head == spec_clear_sequence() + title@ + spec_crlf() + spec_separator_row()
                + spec_crlf(),
            head + spec_menu_rows(items@, sel as int, 0) =~= v@ + spec_menu_rows(
                items@,
                sel as int,
                i as int,
            ),
        decreases items@.len() - i,
    {
        let ghost prev = v@;
        if i == sel {
            v.push(0x3e);
            v.push(0x20);
        } else {
            v.push(0x20);
            v.push(0x20);
        }
        push_bytes(&mut v, items[i].as_slice());
        v.push(0x0d);
        v.push(0x0a);
        proof {
            assert(v@ =~= prev + spec_menu_row(items@[i as int]@, i == sel));
            assert(prev + (spec_menu_row(items@[i as int]@, i == sel) + spec_menu_rows(
                items@,
                sel as int,
                i + 1,
            )) =~= v@ + spec_menu_rows(items@, sel as int, i + 1));
        }
        i += 1;
    }
    proof {
        assert(v@ + Seq::<u8>::empty() =~= v@);
        assert(v@ =~= head + spec_menu_rows(items@, sel as int, 0));
    }
    v
}

/// A received chunk rendered for the terminal: each byte is copied through,
/// and a byte that begins a line (the first byte after a line feed, or the
/// first byte of the session) is preceded by the timestamp text `ts`. The
/// second component is whether the output was left at the start of a line.
pub open spec fn spec_render_received(chunk: Seq<u8>, at_line_start: bool, ts: Seq<u8>) -> (
    Seq<u8>,
    bool,
)
    decreases chunk.len(),
{
    if chunk.len() == 0 {
        (Seq::<u8>::empty(), at_line_start)
    } else {
        let b = chunk[0];
        let head = if at_line_start {
            ts + seq![b]
        } else {
            seq![b]
        };
        let r = spec_render_received(chunk.drop_first(), b == NL_BYTE, ts);
        (head + r.0, r.1)
    }
}

/// Renders one received chunk, prefixing the supplied timestamp text before
/// every byte that begins a line, and reports whether output ended at a line
/// start.
pub fn render_received(chunk: &[u8], at_line_start: bool, ts: &[u8]) -> (r: (Vec<u8>, bool))
    ensures
        (r.0@, r.1) == spec_render_received(chunk@, at_line_start, ts@),
{
    let mut out: Vec<u8> = Vec::new();
    let mut flag = at_line_start;
    let mut i: usize = 0;
    proof {
        assert(chunk@.subrange(0, chunk@.len() as int) =~= chunk@);
    }
    while i < chunk.len()
        invariant
            i <= chunk@.len(),
            ({
                let full = spec_render_received(chunk@, at_line_start, ts@);
                let rest = spec_render_received(
                    chunk@.subrange(i as int, chunk@.len() as int),
                    flag,
                    ts@,
                );
                &&& full.0 == out@ + rest.0
                &&& full.1 == rest.1
            }),
        decreases chunk@.len() - i,
    {
        let ghost prev = out@;
        let ghost sub = chunk@.subrange(i as int, chunk@.len() as int);
        let ghost at_start_here = flag;
        let b = chunk[i];
        proof {
            assert(sub[0] == chunk@[i as int]);
            assert(sub.drop_first() =~= chunk@.subrange(i + 1, chunk@.len() as int));
        }
        if flag {
            push_bytes(&mut out, ts);
        }
        out.push(b);
        flag = b == NL_BYTE;
        proof {
            let head = if at_start_here {
                ts@ + seq![b]
            } else {
                seq![b]
            };
            let r = spec_render_received(sub.drop_first(), b == NL_BYTE, ts@);
            assert(out@ =~= prev + head);
            assert(prev + (head + r.0) =~= (prev + head) + r.0);
        }
        i += 1;
    }
    proof {
        assert(chunk@.subrange(chunk@.len() as int, chunk@.len() as int)
            =~= Seq::<u8>::empty());
        let full = spec_render_received(chunk@, at_line_start, ts@);
        assert(full.0 =~= out@);
    }
    (out, flag)
}

} // verus!
