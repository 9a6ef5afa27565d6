//! Layout units: the measurements a node uses to place itself inside its
//! parent, and how a measurement resolves to a concrete pixel offset.

use vstd::prelude::*;

verus! {

/// A layout measurement: a fixed number of pixels, or a percentage of the
/// parent's extent.
#[derive(Clone, Copy, Debug, PartialEq, Eq, Structural)]
pub enum Units {
    /// An absolute offset, independent of the parent.
    Pixels(u32),
    /// A share of the parent's extent, in whole percent.
    Percentage(u32),
}

/// The pixel offset that a measurement resolves to inside a parent of the
/// given extent: fixed pixels stand as they are, whatever the parent
/// measures; a percentage takes that share of the parent, rounded down.
pub open spec fn spec_resolved_offset(u: Units, parent: u32) -> int {
    match u {
        Units::Pixels(p) => p as int,
        Units::Percentage(p) => (p * parent) / 100,
    }
}

impl Units {
    /// Resolves this measurement against a parent of the given extent.
    pub fn resolved_offset(self, parent: u32) -> (r: u64)
        ensures
            r == spec_resolved_offset(self, parent),
    {
        match self {
            Units::Pixels(p) => p as u64,
            Units::Percentage(p) => {
                proof {
                    assert((p as int) * (parent as int) <= 0xffff_ffff * 0xffff_ffff)
                        by (nonlinear_arith)
                        requires
                            p <= 0xffff_ffffu32,
                            parent <= 0xffff_ffffu32,
                    ;
                }
                ((p as u64) * (parent as u64)) / 100
            },
        }
    }
}

} // verus!
