//! The two kinds of host an atom can run on.

use vstd::prelude::*;

verus! {

/// Whether the host has POSIX-style permission bits.
///
/// The caller selects the variant once, when it is configured, and hands it
/// to every operation. On `Other` an atom that needs permission bits is
/// inert: it reports no drift and asks for no change.
#[derive(Clone, Copy, Debug, PartialEq, Eq, Structural)]
pub enum Platform {
    /// A host with POSIX-style permission bits.
    Posix,
    /// Any other host.
    Other,
}

} // verus!
