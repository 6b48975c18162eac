//! Model of the controlling terminal's mode: whether the input stream is in
//! raw (unbuffered, unechoed) mode and whether output line-wrapping is
//! enabled. Every routine that engages raw mode for a scoped operation must
//! leave the terminal as it found it on every exit path; the run routines in
//! the menu and session modules state that over this model in their contracts.
use vstd::prelude::*;

verus! {

/// The mode of the controlling terminal. The platform layer mirrors every
/// change of this model onto the real stream; the library proves that the
/// model is restored, so the mirrored stream is too.
pub struct Terminal {
    /// Input is delivered byte-by-byte and unechoed.
    pub raw: bool,
    /// Output line-wrapping is enabled.
    pub wrap: bool,
}

/// The terminal mode saved when raw mode is entered; consumed exactly once
/// by the matching restore.
pub struct SavedMode {
    pub was_raw: bool,
}

impl Terminal {
    /// A terminal as a fresh session finds it: line-buffered, wrapping on.
    pub fn new() -> (t: Terminal)
        ensures
            !t.raw,
            t.wrap,
    {
        Terminal { raw: false, wrap: true }
    }

    /// Switches the input stream to raw mode and hands back the prior mode.
    pub fn enter_raw(&mut self) -> (saved: SavedMode)
        ensures
            final(self).raw,
            final(self).wrap == old(self).wrap,
            saved.was_raw == old(self).raw,
    {
        let saved = SavedMode { was_raw: self.raw };
        self.raw = true;
        saved
    }

    /// Restores the input stream to the mode saved at the matching entry.
    /// Taking `saved` by value consumes it: no entry can be restored twice.
    pub fn restore(&mut self, saved: SavedMode)
        ensures
            final(self).raw == saved.was_raw,
            final(self).wrap == old(self).wrap,
    {
        self.raw = saved.was_raw;
    }

    /// Records that a full-screen repaint suppressed output line-wrapping.
    pub fn suppress_wrap(&mut self)
        ensures
            final(self).raw == old(self).raw,
            !final(self).wrap,
    {
        self.wrap = false;
    }

    /// Records that output line-wrapping was switched back on.
    pub fn enable_wrap(&mut self)
        ensures
            final(self).raw == old(self).raw,
            final(self).wrap,
    {
        self.wrap = true;
    }
}

} // verus!
