//! Static configuration fixed at plugin construction: feature flags for
//! the UI context and the render target the UI draws onto.

use vstd::prelude::*;

verus! {

/// A set of UI-library feature flags (docking support and the like),
/// kept as a plain bit set and combined by union.
#[derive(Clone, Copy, Debug, PartialEq, Eq, Structural)]
pub struct ConfigFlags {
    pub bits: u32,
}

impl ConfigFlags {
    /// No feature enabled.
    pub fn empty() -> (r: ConfigFlags)
        ensures
            r.bits == 0,
    {
        ConfigFlags { bits: 0 }
    }

    pub fn from_bits(bits: u32) -> (r: ConfigFlags)
        ensures
            r.bits == bits,
    {
        ConfigFlags { bits }
    }

    /// Both flag sets combined, as `|=` on the context's flags does.
    pub fn union(self, other: ConfigFlags) -> (r: ConfigFlags)
        ensures
            r.bits == self.bits | other.bits,
    {
        ConfigFlags { bits: self.bits | other.bits }
    }
}

/// Selects the render output the UI is drawn onto. The default selector
/// names the host's main target.
#[derive(Clone, Copy, Debug, PartialEq, Eq, Structural)]
pub struct Target {
    pub id: u64,
}

impl Default for Target {
    /// The host's main render target.
    fn default() -> (r: Target)
        ensures
            r.id == 0,
    {
        Target { id: 0 }
    }
}

} // verus!
