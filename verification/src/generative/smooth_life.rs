//! Index arithmetic of the SmoothLife generator's neighbourhood scans.
use vstd::prelude::*;
use vstd::arithmetic::div_mod::{lemma_mod_add_multiples_vanish, lemma_mod_twice};

verus! {

/// Euclidean remainder of `value` by `bound`, as used to wrap neighbourhood
/// coordinates around the edges of a grid.
pub fn emod(value: usize, bound: usize) -> (r: usize)
    requires
        bound > 0,
        value % bound + bound <= usize::MAX,
    ensures
        r == value % bound,
        r < bound,
{
    proof {
        lemma_mod_add_multiples_vanish((value % bound) as int, bound as int);
        lemma_mod_twice(value as int, bound as int);
    }
    (value % bound + bound) % bound
}

/// Wraps `value` into `0..bound`, as the scan of a cell's neighbourhood wraps
/// around the edges of the grid.
pub fn wrap(value: usize, bound: usize) -> (r: usize)
    requires
        bound > 0,
        value % bound + bound <= usize::MAX,
    ensures
        r == value % bound,
        r < bound,
{
    emod(value, bound)
}

} // verus!
