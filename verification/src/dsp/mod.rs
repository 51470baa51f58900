//! Signal processing structures.
pub mod noise;
pub mod stereo_wrapper;
