//! Sizes of the spectrum analysis.
use vstd::prelude::*;

verus! {

/// The window size of the spectrum analyser.
pub const SPECTRUM_WINDOW_SIZE: usize = 2048;

/// The overlap factor of the spectrum analyser's windows.
pub const SPECTRUM_OVERLAP_FACTOR: usize = 8;

/// The number of frequency bins a spectrum analysis produces.
pub const RESULT_BUFFER_SIZE: usize = 1025;

} // verus!
