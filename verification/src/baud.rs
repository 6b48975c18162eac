//! The supported baud rates and their decimal spellings. A rate is chosen
//! either from a command argument or from the rate menu; any spelling outside
//! the five below is rejected outright rather than silently replaced.
use vstd::prelude::*;
use crate::util::bytes_eq;

verus! {

/// The five supported baud rates.
#[derive(Clone, Copy, PartialEq, Eq, Structural, Debug)]
pub enum Baud {
    B9600,
    B19200,
    B38400,
    B57600,
    B115200,
}

/// The decimal spelling of a baud rate: the bytes an operator types as an
/// argument, and the bytes the rate menu shows.
pub open spec fn spec_baud_label(b: Baud) -> Seq<u8> {
    match b {
        Baud::B9600 => seq![0x39u8, 0x36u8, 0x30u8, 0x30u8],
        Baud::B19200 => seq![0x31u8, 0x39u8, 0x32u8, 0x30u8, 0x30u8],
        Baud::B38400 => seq![0x33u8, 0x38u8, 0x34u8, 0x30u8, 0x30u8],
        Baud::B57600 => seq![0x35u8, 0x37u8, 0x36u8, 0x30u8, 0x30u8],
        Baud::B115200 => seq![0x31u8, 0x31u8, 0x35u8, 0x32u8, 0x30u8, 0x30u8],
    }
}

/// Which baud rate a byte string names, if any.
pub open spec fn spec_parse_baud(s: Seq<u8>) -> Option<Baud> {
    if s == spec_baud_label(Baud::B9600) {
        Some(Baud::B9600)
    } else if s == spec_baud_label(Baud::B19200) {
        Some(Baud::B19200)
    } else if s == spec_baud_label(Baud::B38400) {
        Some(Baud::B38400)
    } else if s == spec_baud_label(Baud::B57600) {
        Some(Baud::B57600)
    } else if s == spec_baud_label(Baud::B115200) {
        Some(Baud::B115200)
    } else {
        None
    }
}

/// The spelling of a baud rate, as shown in the rate menu.
pub fn baud_label(b: Baud) -> (r: Vec<u8>)
    ensures
        r@ == spec_baud_label(b),
{
    let mut v: Vec<u8> = Vec::new();
    match b {
        Baud::B9600 => {
            v.push(0x39u8);
            v.push(0x36u8);
            v.push(0x30u8);
            v.push(0x30u8);
        },
        Baud::B19200 => {
            v.push(0x31u8);
            v.push(0x39u8);
            v.push(0x32u8);
            v.push(0x30u8);
            v.push(0x30u8);
        },
        Baud::B38400 => {
            v.push(0x33u8);
            v.push(0x38u8);
            v.push(0x34u8);
            v.push(0x30u8);
            v.push(0x30u8);
        },
        Baud::B57600 => {
            v.push(0x35u8);
            v.push(0x37u8);
            v.push(0x36u8);
            v.push(0x30u8);
            v.push(0x30u8);
        },
        Baud::B115200 => {
            v.push(0x31u8);
            v.push(0x31u8);
            v.push(0x35u8);
            v.push(0x32u8);
            v.push(0x30u8);
            v.push(0x30u8);
        },
    }
    proof {
        assert(v@ =~= spec_baud_label(b));
    }
    v
}

/// Reads a baud rate from its decimal spelling; every other spelling is
/// rejected with `None`, never replaced by a default.
pub fn parse_baud(s: &[u8]) -> (r: Option<Baud>)
    ensures
        r == spec_parse_baud(s@),
{
    if bytes_eq(s, baud_label(Baud::B9600).as_slice()) {
        Some(Baud::B9600)
    } else if bytes_eq(s, baud_label(Baud::B19200).as_slice()) {
        Some(Baud::B19200)
    } else if bytes_eq(s, baud_label(Baud::B38400).as_slice()) {
        Some(Baud::B38400)
    } else if bytes_eq(s, baud_label(Baud::B57600).as_slice()) {
        Some(Baud::B57600)
    } else if bytes_eq(s, baud_label(Baud::B115200).as_slice()) {
        Some(Baud::B115200)
    } else {
        None
    }
}

/// Reading a rate's own spelling back always yields that rate.
pub proof fn lemma_baud_label_parses(b: Baud)
    ensures
        spec_parse_baud(spec_baud_label(b)) == Some(b),
{
}

} // verus!
