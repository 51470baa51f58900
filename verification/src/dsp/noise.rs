//! The white-noise oscillator.
use vstd::prelude::*;

verus! {

/// A white-noise oscillator. It holds no state: each sample is drawn afresh.
#[derive(Debug, Clone, Copy)]
pub struct NoiseOsc;

} // verus!
