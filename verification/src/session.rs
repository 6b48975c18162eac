//! The live-session logic: the transfer counters shared by the two loops,
//! the transmit-side state machine that interprets keyboard input in line
//! mode or raw-passthrough mode, and the whole-run model of the transmit
//! loop. The platform layer performs the actual reads and writes; every
//! decision — what is forwarded, when the mode toggles, when the session
//! ends, and how the counters move — is made and proved here.
use vstd::prelude::*;
use crate::term::Terminal;
use crate::util::push_bytes;

verus! {

/// The control byte that toggles between line mode and raw passthrough.
pub const TOGGLE_BYTE: u8 = 0x12;

/// The interrupt byte: ends the session from raw mode.
pub const INTERRUPT_BYTE: u8 = 0x03;

/// The end-of-transmission byte: ends the session from raw mode.
pub const EOT_BYTE: u8 = 0x04;

/// Line feed, the line terminator of line mode.
pub const NL_BYTE: u8 = 0x0a;

/// The transfer counters shared by the receive and transmit loops. Each
/// only ever grows, by exactly the number of bytes moved in its direction.
#[derive(Clone, Copy, PartialEq, Eq, Structural, Debug)]
pub struct Counters {
    /// Bytes received from the port so far.
    pub rx: u64,
    /// Bytes sent to the port so far.
    pub tx: u64,
}

impl Counters {
    /// Fresh counters at session start.
    pub fn new() -> (c: Counters)
        ensures
            c.rx == 0,
            c.tx == 0,
    {
        Counters { rx: 0, tx: 0 }
    }

    /// Records `n` bytes received from the port.
    pub fn add_received(&mut self, n: u64)
        requires
            old(self).rx + n <= u64::MAX,
        ensures
            final(self).rx == old(self).rx + n,
            final(self).tx == old(self).tx,
    {
        self.rx = self.rx + n;
    }

    /// Records `n` bytes sent to the port.
    pub fn add_sent(&mut self, n: u64)
        requires
            old(self).tx + n <= u64::MAX,
        ensures
            final(self).tx == old(self).tx + n,
            final(self).rx == old(self).rx,
    {
        self.tx = self.tx + n;
    }
}

/// One recorded transfer: how many bytes moved, and in which direction.
#[derive(Clone, Copy, PartialEq, Eq, Structural, Debug)]
pub enum Transfer {
    Received(u64),
    Sent(u64),
}

/// The counters after a sequence of transfers is applied in order, each
/// direction summed on its own counter.
pub open spec fn spec_apply_transfers(c: Counters, ev: Seq<Transfer>) -> Counters
    decreases ev.len(),
{
    if ev.len() == 0 {
        c
    } else {
        let c1 = match ev[0] {
            Transfer::Received(n) => Counters { rx: (c.rx + n) as u64, tx: c.tx },
            Transfer::Sent(n) => Counters { rx: c.rx, tx: (c.tx + n) as u64 },
        };
        spec_apply_transfers(c1, ev.drop_first())
    }
}

/// The total bytes received in a sequence of transfers.
pub open spec fn spec_received_sum(ev: Seq<Transfer>) -> int
    decreases ev.len(),
{
    if ev.len() == 0 {
        0
    } else {
        (match ev[0] {
            Transfer::Received(n) => n as int,
            Transfer::Sent(_) => 0,
        }) + spec_received_sum(ev.drop_first())
    }
}

/// The total bytes sent in a sequence of transfers.
pub open spec fn spec_sent_sum(ev: Seq<Transfer>) -> int
    decreases ev.len(),
{
    if ev.len() == 0 {
        0
    } else {
        (match ev[0] {
            Transfer::Received(_) => 0,
            Transfer::Sent(n) => n as int,
        }) + spec_sent_sum(ev.drop_first())
    }
}

/// Counter law: under any interleaving of receive and transmit operations
/// that stays within the counters' range, each counter ends exactly at its
/// starting value plus the bytes moved in its direction — so each is
/// non-decreasing and neither direction's traffic ever disturbs the other
/// counter.
pub proof fn lemma_counters_exact(c: Counters, ev: Seq<Transfer>)
    requires
        c.rx + spec_received_sum(ev) <= u64::MAX,
        c.tx + spec_sent_sum(ev) <= u64::MAX,
    ensures
        spec_apply_transfers(c, ev).rx == c.rx + spec_received_sum(ev),
        spec_apply_transfers(c, ev).tx == c.tx + spec_sent_sum(ev),
        spec_apply_transfers(c, ev).rx >= c.rx,
        spec_apply_transfers(c, ev).tx >= c.tx,
    decreases ev.len(),
{
    if ev.len() > 0 {
        lemma_received_sum_nonneg(ev.drop_first());
        lemma_sent_sum_nonneg(ev.drop_first());
        let c1 = match ev[0] {
            Transfer::Received(n) => Counters { rx: (c.rx + n) as u64, tx: c.tx },
            Transfer::Sent(n) => Counters { rx: c.rx, tx: (c.tx + n) as u64 },
        };
        lemma_counters_exact(c1, ev.drop_first());
    }
}

/// The received total of a transfer sequence is never negative.
pub proof fn lemma_received_sum_nonneg(ev: Seq<Transfer>)
    ensures
        spec_received_sum(ev) >= 0,
    decreases ev.len(),
{
    if ev.len() > 0 {
        lemma_received_sum_nonneg(ev.drop_first());
    }
}

/// The sent total of a transfer sequence is never negative.
pub proof fn lemma_sent_sum_nonneg(ev: Seq<Transfer>)
    ensures
        spec_sent_sum(ev) >= 0,
    decreases ev.len(),
{
    if ev.len() > 0 {
        lemma_sent_sum_nonneg(ev.drop_first());
    }
}

/// The transmit-side session state: the mode flag and the shared counters.
/// Only the transmit loop mutates the flag; the receive loop only reads it.
#[derive(Clone, Copy, PartialEq, Eq, Structural, Debug)]
pub struct Session {
    /// When true every keystroke is forwarded byte-for-byte; when false
    /// input is buffered by line before forwarding.
    pub raw_passthrough: bool,
    /// The shared transfer counters.
    pub counters: Counters,
}

/// What the platform layer must do with the unit of input just read.
#[derive(Clone, Copy, PartialEq, Eq, Structural, Debug)]
pub enum TxAction {
    /// Forward the unit (the whole line, or the single byte) to the port.
    Forward,
    /// The unit was a mode toggle: forward nothing.
    Toggled,
    /// The unit ends the session: forward nothing and stop.
    Terminate,
}

/// What one line read in line mode does to the session: a line carrying the
/// toggle byte switches to raw passthrough and is not sent; any other line is
/// forwarded whole, terminator included.
pub open spec fn spec_on_line(s: Session, line: Seq<u8>) -> (Session, TxAction) {
    if line.contains(TOGGLE_BYTE) {
        (Session { raw_passthrough: true, ..s }, TxAction::Toggled)
    } else {
        (
            Session {
                counters: Counters {
                    tx: (s.counters.tx + line.len()) as u64,
                    ..s.counters
                },
                ..s
            },
            TxAction::Forward,
        )
    }
}

/// What one byte read in raw passthrough does to the session: interrupt and
/// end-of-transmission end it, the toggle byte switches back to line mode
/// without being sent, and every other byte is forwarded individually.
pub open spec fn spec_on_raw(s: Session, b: u8) -> (Session, TxAction) {
    if b == INTERRUPT_BYTE || b == EOT_BYTE {
        (s, TxAction::Terminate)
    } else if b == TOGGLE_BYTE {
        (Session { raw_passthrough: false, ..s }, TxAction::Toggled)
    } else {
        (
            Session {
                counters: Counters { tx: (s.counters.tx + 1) as u64, ..s.counters },
                ..s
            },
            TxAction::Forward,
        )
    }
}

/// Whether a byte occurs in a slice.
pub fn contains_byte(s: &[u8], b: u8) -> (r: bool)
    ensures
        r == s@.contains(b),
{
    let mut i: usize = 0;
    while i < s.len()
        invariant
            i <= s@.len(),
            forall|j: int| 0 <= j < i ==> s@[j] != b,
        decreases s@.len() - i,
    {
        if s[i] == b {
            return true;
        }
        i += 1;
    }
    false
}

impl Session {
    /// A fresh session: line mode, zero counters.
    pub fn new() -> (s: Session)
        ensures
            !s.raw_passthrough,
            s.counters.rx == 0,
            s.counters.tx == 0,
    {
        Session { raw_passthrough: false, counters: Counters::new() }
    }

    /// Acts on one line read from the keyboard in line mode.
    pub fn on_line_input(&mut self, line: &[u8]) -> (a: TxAction)
        requires
            !old(self).raw_passthrough,
            old(self).counters.tx + line@.len() <= u64::MAX,
        ensures
            (*final(self), a) == spec_on_line(*old(self), line@),
    {
        if contains_byte(line, TOGGLE_BYTE) {
            self.raw_passthrough = true;
            TxAction::Toggled
        } else {
            self.counters.add_sent(line.len() as u64);
            TxAction::Forward
        }
    }

    /// Acts on one byte read from the keyboard in raw passthrough.
    pub fn on_raw_input(&mut self, b: u8) -> (a: TxAction)
        requires
            old(self).raw_passthrough,
            old(self).counters.tx < u64::MAX,
        ensures
            (*final(self), a) == spec_on_raw(*old(self), b),
    {
        if b == INTERRUPT_BYTE || b == EOT_BYTE {
            TxAction::Terminate
        } else if b == TOGGLE_BYTE {
            self.raw_passthrough = false;
            TxAction::Toggled
        } else {
            self.counters.add_sent(1);
            TxAction::Forward
        }
    }

    /// One pass of the background receive loop over a non-empty chunk read
    /// from the port: records the chunk's length on the receive counter and
    /// renders the chunk, prefixing the supplied timestamp text before every
    /// byte that begins a line. Returns the rendered bytes and whether
    /// output was left at the start of a line.
    pub fn on_received_chunk(&mut self, chunk: &[u8], at_line_start: bool, ts: &[u8]) -> (r: (
        Vec<u8>,
        bool,
    ))
        requires
            old(self).counters.rx + chunk@.len() <= u64::MAX,
        ensures
            final(self).counters.rx == old(self).counters.rx + chunk@.len(),
            final(self).counters.tx == old(self).counters.tx,
            final(self).raw_passthrough == old(self).raw_passthrough,
            (r.0@, r.1) == crate::render::spec_render_received(chunk@, at_line_start, ts@),
    {
        self.counters.add_received(chunk.len() as u64);
        crate::render::render_received(chunk, at_line_start, ts)
    }
}

/// Mode-toggle law: a line carrying the toggle byte switches line mode to
/// raw passthrough and sends nothing; the toggle byte in raw passthrough
/// switches back and sends nothing; so toggling twice returns the session to
/// exactly its starting state — same mode, same counters, zero net bytes sent
/// by the two toggles.
pub proof fn lemma_toggle_round_trip(s: Session, line: Seq<u8>)
    requires
        !s.raw_passthrough,
        line.contains(TOGGLE_BYTE),
    ensures
        ({
            let (s1, a1) = spec_on_line(s, line);
            let (s2, a2) = spec_on_raw(s1, TOGGLE_BYTE);
            &&& s1.raw_passthrough
            &&& a1 == TxAction::Toggled
            &&& s1.counters == s.counters
            &&& !s2.raw_passthrough
            &&& a2 == TxAction::Toggled
            &&& s2 == s
        }),
{
}

/// The position just past the current line: one past the first line feed at
/// or after `pos`, or the end of the input if no line feed follows.
pub open spec fn spec_line_end(input: Seq<u8>, pos: int) -> int
    decreases input.len() - pos,
    when 0 <= pos <= input.len()
{
    if pos >= input.len() {
        pos
    } else if input[pos] == NL_BYTE {
        pos + 1
    } else {
        spec_line_end(input, pos + 1)
    }
}

/// A line extends past where it starts and never past the end of the input.
pub proof fn lemma_line_end_bounds(input: Seq<u8>, pos: int)
    requires
        0 <= pos < input.len(),
    ensures
        pos < spec_line_end(input, pos) <= input.len(),
    decreases input.len() - pos,
{
    if input[pos] != NL_BYTE {
        if pos + 1 < input.len() {
            lemma_line_end_bounds(input, pos + 1);
        } else {
            assert(spec_line_end(input, pos + 1) == pos + 1);
        }
    }
}

/// Finds the end of the line that starts at `pos`: one past its line feed,
/// or the end of the input.
pub fn find_line_end(input: &[u8], pos: usize) -> (end: usize)
    requires
        pos <= input@.len(),
    ensures
        end as int == spec_line_end(input@, pos as int),
        pos <= end <= input@.len(),
        pos < input@.len() ==> pos < end,
{
    let mut i: usize = pos;
    while i < input.len()
        invariant
            pos <= i <= input@.len(),
            spec_line_end(input@, pos as int) == spec_line_end(input@, i as int),
        decreases input@.len() - i,
    {
        if input[i] == NL_BYTE {
            return i + 1;
        }
        i += 1;
    }
    i
}

/// How a transmit run ends: the keyboard stream ran out, or an explicit
/// interrupt or end-of-transmission byte ended the session from raw mode.
#[derive(Clone, Copy, PartialEq, Eq, Structural, Debug)]
pub enum SessionEnd {
    EndOfInput,
    Terminated,
}

/// The whole transmit loop on a given keyboard stream, from `pos` on: the
/// session state it ends in, how it ends, and exactly the bytes it forwards
/// to the port, in order. In line mode it consumes a line at a time; in raw
/// passthrough, a byte at a time.
pub open spec fn spec_run_transmit(s: Session, input: Seq<u8>, pos: int) -> (Session, SessionEnd, Seq<u8>)
    decreases input.len() - pos,
    when 0 <= pos <= input.len()
    via spec_run_transmit_dec
{
    if pos >= input.len() {
        (s, SessionEnd::EndOfInput, Seq::<u8>::empty())
    } else if s.raw_passthrough {
        let b = input[pos];
        let (s1, a) = spec_on_raw(s, b);
        if a is Terminate {
            (s, SessionEnd::Terminated, Seq::<u8>::empty())
        } else if a is Toggled {
            spec_run_transmit(s1, input, pos + 1)
        } else {
            let r = spec_run_transmit(s1, input, pos + 1);
            (r.0, r.1, seq![b] + r.2)
        }
    } else {
        let end = spec_line_end(input, pos);
        let line = input.subrange(pos, end);
        let (s1, a) = spec_on_line(s, line);
        if a is Toggled {
            spec_run_transmit(s1, input, end)
        } else {
            let r = spec_run_transmit(s1, input, end);
            (r.0, r.1, line + r.2)
        }
    }
}

#[via_fn]
proof fn spec_run_transmit_dec(s: Session, input: Seq<u8>, pos: int) {
    if 0 <= pos < input.len() && !s.raw_passthrough {
        lemma_line_end_bounds(input, pos);
    }
}

/// Transmit law: a run never forwards more bytes than it consumes, the sent
/// counter ends exactly at its start plus the number of bytes forwarded, the
/// receive counter is untouched, and the toggle byte itself is never among
/// the forwarded bytes.
pub proof fn lemma_transmit_exact(s: Session, input: Seq<u8>, pos: int)
    requires
        0 <= pos <= input.len(),
        s.counters.tx + (input.len() - pos) <= u64::MAX,
    ensures
        ({
            let (s2, end, fwd) = spec_run_transmit(s, input, pos);
            &&& fwd.len() <= input.len() - pos
            &&& s2.counters.tx == s.counters.tx + fwd.len()
            &&& s2.counters.rx == s.counters.rx
            &&& !fwd.contains(TOGGLE_BYTE)
        }),
    decreases input.len() - pos,
{
    if pos >= input.len() {
    } else if s.raw_passthrough {
        let b = input[pos];
        let (s1, a) = spec_on_raw(s, b);
        if a is Terminate {
        } else {
            lemma_transmit_exact(s1, input, pos + 1);
        }
    } else {
        lemma_line_end_bounds(input, pos);
        let end = spec_line_end(input, pos);
        let line = input.subrange(pos, end);
        let (s1, a) = spec_on_line(s, line);
        lemma_transmit_exact(s1, input, end);
        if !(a is Toggled) {
            let r = spec_run_transmit(s1, input, end);
            assert(!line.contains(TOGGLE_BYTE));
            assert forall|i: int| 0 <= i < (line + r.2).len() implies (line + r.2)[i]
                != TOGGLE_BYTE by {
                if i < line.len() {
                    assert(line[i] != TOGGLE_BYTE);
                }
            }
        }
    }
}

/// Runs the foreground transmit loop against the whole keyboard stream in
/// `input`, starting in the given session state, and returns how the run
/// ended together with exactly the bytes that were forwarded to the port.
/// Raw mode is engaged for the session and restored to the prior terminal
/// mode on both exits: end of input and explicit termination.
pub fn run_transmit(s: &mut Session, term: &mut Terminal, input: &[u8]) -> (r: (
    SessionEnd,
    Vec<u8>,
))
    requires
        old(s).counters.tx + input@.len() <= u64::MAX,
    ensures
        ({
            let (s2, end, fwd) = spec_run_transmit(*old(s), input@, 0);
            &&& *final(s) == s2
            &&& r.0 == end
            &&& r.1@ == fwd
        }),
        final(term).raw == old(term).raw,
        final(term).wrap == old(term).wrap,
{
    let saved = term.enter_raw();
    let mut out: Vec<u8> = Vec::new();
    let mut pos: usize = 0;
    loop
        invariant
            pos <= input@.len(),
            s.counters.tx + (input@.len() - pos) <= u64::MAX,
            out@.len() <= pos,
            term.raw,
            term.wrap == old(term).wrap,
            saved.was_raw == old(term).raw,
            ({
                let full = spec_run_transmit(*old(s), input@, 0);
                let rest = spec_run_transmit(*s, input@, pos as int);
                &&& full.0 == rest.0
                &&& full.1 == rest.1
                &&& full.2 == out@ + rest.2
            }),
        decreases input@.len() - pos,
    {
        if pos >= input.len() {
            term.restore(saved);
            proof {
                assert(out@ + Seq::<u8>::empty() =~= out@);
            }
            return (SessionEnd::EndOfInput, out);
        }
        if s.raw_passthrough {
            let b = input[pos];
            match s.on_raw_input(b) {
                TxAction::Terminate => {
                    term.restore(saved);
                    proof {
                        assert(out@ + Seq::<u8>::empty() =~= out@);
                    }
                    return (SessionEnd::Terminated, out);
                },
                TxAction::Toggled => {
                    pos = pos + 1;
                },
                TxAction::Forward => {
                    out.push(b);
                    proof {
                        let rest = spec_run_transmit(*s, input@, pos + 1);
                        assert(out@ + rest.2 =~= out@.drop_last() + (seq![b] + rest.2));
                    }
                    pos = pos + 1;
                },
            }
        } else {
            let end = find_line_end(input, pos);
            let line = &input[pos..end];
            match s.on_line_input(line) {
                TxAction::Toggled => {
                    pos = end;
                },
                TxAction::Forward => {
                    let ghost prev = out@;
                    push_bytes(&mut out, line);
                    proof {
                        let rest = spec_run_transmit(*s, input@, end as int);
                        assert(out@ + rest.2 =~= prev + (line@ + rest.2));
                    }
                    pos = end;
                },
                TxAction::Terminate => {
                    proof {
                        assert(false);
                    }
                    pos = end;
                },
            }
        }
    }
}

} // verus!
