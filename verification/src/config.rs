//! How the session configuration is obtained: straight from the command
//! arguments when both are supplied, otherwise interactively through the
//! device and rate menus.
use vstd::prelude::*;

verus! {

/// The entry path of a run.
pub enum EntryDecision {
    /// Both arguments were supplied: the device path and the rate spelling,
    /// exactly as given. No menu is shown.
    Direct(Vec<u8>, Vec<u8>),
    /// One or both arguments are missing: device and rate are both chosen
    /// from menus.
    Interactive,
}

/// Decides the entry path from the argument list (the program name first):
/// with a device and a rate supplied the menus are skipped entirely, and the
/// session uses those two values unchanged.
pub fn resolve_entry(args: &Vec<Vec<u8>>) -> (r: EntryDecision)
    ensures
        args@.len() >= 3 ==> (r matches EntryDecision::Direct(d, b) && d@ == args@[1]@ && b@
            == args@[2]@),
        args@.len() < 3 ==> r is Interactive,
{
    if args.len() >= 3 {
        let d = args[1].clone();
        let b = args[2].clone();
        proof {
            assert(d@ =~= args@[1]@);
            assert(b@ =~= args@[2]@);
        }
        EntryDecision::Direct(d, b)
    } else {
        EntryDecision::Interactive
    }
}

} // verus!
