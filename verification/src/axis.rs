//! Coordinate axes, and the random axis choice used when building a
//! bounding-volume hierarchy.
//!
//! Each level of the hierarchy sorts its primitives along one of the three
//! coordinate axes, picked from the node's random source.  The pick reduces
//! one draw modulo three, so it carries the generator's slight bias towards
//! the low residues; the choice only steers the tree shape, never the set of
//! hits, so the bias is kept as it is.

use crate::pcg32::PCG32State;
use crate::pcg32::pcg_advance;
use crate::pcg32::pcg_output;
use vstd::prelude::*;

verus! {

#[derive(Clone, Copy, Debug, PartialEq, Eq, Structural)]
pub enum Axis {
    X,
    Y,
    Z,
}

/// The axis that a draw with residue `index` modulo three selects.
pub open spec fn axis_from_index(index: u32) -> Axis {
    if index % 3 == 0 {
        Axis::X
    } else if index % 3 == 1 {
        Axis::Y
    } else {
        Axis::Z
    }
}

/// Pick the sort axis for one hierarchy level: one draw from `rng`, reduced
/// modulo three.
pub fn random_axis(rng: &mut PCG32State) -> (r: Axis)
    ensures
        final(rng)@ == (pcg_advance(old(rng)@.0, old(rng)@.1), old(rng)@.1),
        r == axis_from_index(pcg_output(old(rng)@.0)),
{
    let pick: u32 = rng.u32_between(0, 3);
    if pick == 0 {
        Axis::X
    } else if pick == 1 {
        Axis::Y
    } else {
        Axis::Z
    }
}

} // verus!
