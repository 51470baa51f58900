//! Program-wide settings.
use vstd::prelude::*;

verus! {

/// The maximum number of simultaneous polyphonic voices.
pub const NUM_VOICES: u32 = 16;

/// The maximum size of an audio block. When processing audio, the buffer is
/// broken down into blocks which are this big, unless the buffer size is
/// smaller.
pub const MAX_BLOCK_SIZE: usize = 64;

/// The default DSP buffer size.
pub const BUFFER_SIZE: usize = 256;

/// The maximum available DSP buffer size.
pub const MAX_BUFFER_SIZE: usize = 2048;

/// The number of audio channels for the application.
pub const NUM_CHANNELS: usize = 2;

/// An option to allow the DSP load to be printed to the standard output.
pub const PRINT_DSP_LOAD: bool = true;

/// The maximum available oversampling factor (i.e. this is `2⁴ == 16x` oversampling).
pub const MAX_OVERSAMPLING_FACTOR: usize = 4;

/// The default oversampling factor (i.e. this is `2² == 4x` oversampling).
pub const DEFAULT_OVERSAMPLING_FACTOR: usize = 3;

} // verus!
