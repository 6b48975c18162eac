//! Which directory entries count as candidate serial devices, and how a
//! candidate's name becomes a device path. Reading the directory itself is
//! the platform layer's job; it hands the entry names here and shows only
//! the ones this filter accepts: call-out devices, with Bluetooth-associated
//! entries excluded.
use vstd::prelude::*;
use crate::util::bytes_eq;
use crate::util::push_bytes;

verus! {

/// `cu.` — the name prefix of a call-out serial device.
pub open spec fn spec_callout_prefix() -> Seq<u8> {
    seq![0x63u8, 0x75, 0x2e]
}

/// `Bluetooth` — the marker of Bluetooth-associated entries, which the
/// filter excludes.
pub open spec fn spec_bluetooth_marker() -> Seq<u8> {
    seq![0x42u8, 0x6c, 0x75, 0x65, 0x74, 0x6f, 0x6f, 0x74, 0x68]
}

/// `/dev/` — the directory the candidate names live in.
pub open spec fn spec_dev_dir() -> Seq<u8> {
    seq![0x2fu8, 0x64, 0x65, 0x76, 0x2f]
}

/// Whether `needle` occurs in `hay` starting at position `i`.
pub open spec fn spec_occurs_at(hay: Seq<u8>, needle: Seq<u8>, i: int) -> bool {
    0 <= i && i + needle.len() <= hay.len() && hay.subrange(i, i + needle.len()) == needle
}

/// Whether `needle` occurs anywhere in `hay`.
pub open spec fn spec_contains_seq(hay: Seq<u8>, needle: Seq<u8>) -> bool {
    exists|i: int| spec_occurs_at(hay, needle, i)
}

/// Whether an entry name is a candidate device: it carries the call-out
/// prefix and no Bluetooth marker.
pub open spec fn spec_is_candidate(name: Seq<u8>) -> bool {
    &&& name.len() >= spec_callout_prefix().len()
    &&& name.subrange(0, spec_callout_prefix().len() as int) == spec_callout_prefix()
    &&& !spec_contains_seq(name, spec_bluetooth_marker())
}

/// Whether `needle` occurs as a contiguous run anywhere in `hay`.
pub fn contains_seq(hay: &[u8], needle: &[u8]) -> (r: bool)
    ensures
        r == spec_contains_seq(hay@, needle@),
{
    if needle.len() == 0 {
        proof {
            assert(hay@.subrange(0, 0) =~= needle@);
            assert(spec_occurs_at(hay@, needle@, 0));
        }
        return true;
    }
    if needle.len() > hay.len() {
        proof {
            assert(forall|i: int| !spec_occurs_at(hay@, needle@, i));
        }
        return false;
    }
    let mut i: usize = 0;
    while i <= hay.len() - needle.len()
        invariant
            1 <= needle@.len() <= hay@.len(),
            i <= hay@.len() - needle@.len() + 1,
            forall|j: int| 0 <= j < i ==> !spec_occurs_at(hay@, needle@, j),
        decreases hay@.len() - needle@.len() + 1 - i,
    {
        if bytes_eq(&hay[i..i + needle.len()], needle) {
            proof {
                assert(spec_occurs_at(hay@, needle@, i as int));
            }
            return true;
        }
        i += 1;
    }
    proof {
        assert(forall|j: int| j >= i ==> !spec_occurs_at(hay@, needle@, j));
    }
    false
}

/// The `cu.` prefix as bytes.
pub fn callout_prefix() -> (r: Vec<u8>)
    ensures
        r@ == spec_callout_prefix(),
{
    let mut v: Vec<u8> = Vec::new();
    v.push(0x63);
    v.push(0x75);
    v.push(0x2e);
    proof {
        assert(v@ =~= spec_callout_prefix());
    }
    v
}

/// The `Bluetooth` marker as bytes.
pub fn bluetooth_marker() -> (r: Vec<u8>)
    ensures
        r@ == spec_bluetooth_marker(),
{
    let mut v: Vec<u8> = Vec::new();
    v.push(0x42);
    v.push(0x6c);
    v.push(0x75);
    v.push(0x65);
    v.push(0x74);
    v.push(0x6f);
    v.push(0x6f);
    v.push(0x74);
    v.push(0x68);
    proof {
        assert(v@ =~= spec_bluetooth_marker());
    }
    v
}

/// Decides whether a directory entry name belongs in the device menu.
pub fn is_candidate(name: &[u8]) -> (r: bool)
    ensures
        r == spec_is_candidate(name@),
{
    let prefix = callout_prefix();
    if name.len() < prefix.len() {
        return false;
    }
    if !bytes_eq(&name[0..prefix.len()], prefix.as_slice()) {
        return false;
    }
    let marker = bluetooth_marker();
    !contains_seq(name, marker.as_slice())
}

/// The full path of a candidate device: its name under `/dev/`.
pub fn device_path(name: &[u8]) -> (r: Vec<u8>)
    ensures
        r@ == spec_dev_dir() + name@,
{
    let mut v: Vec<u8> = Vec::new();
    v.push(0x2f);
    v.push(0x64);
    v.push(0x65);
    v.push(0x76);
    v.push(0x2f);
    proof {
        assert(v@ =~= spec_dev_dir());
    }
    push_bytes(&mut v, name);
    v
}

} // verus!
