//! Cadence: the least number of frames between two actions of one entity.

use vstd::prelude::*;

verus! {

/// An action last taken at frame `last` is allowed again at `frame` once more
/// than `interval` frames lie between the two.
pub open spec fn cadence_elapsed(last: usize, interval: usize, frame: usize) -> bool {
    last + interval < frame
}

pub fn is_due(last: usize, interval: usize, frame: usize) -> (r: bool)
    ensures
        r == cadence_elapsed(last, interval, frame),
{
    last < frame && interval < frame - last
}

} // verus!
