//! Generative algorithms.
pub mod contours;
pub mod l_system;
pub mod smooth_life;
pub mod vectors;
