//! Interaction logic, index arithmetic and data structures of a generative
//! audio-visual instrument: menus and buttons, an EQ display, colour
//! gradients, path decimation, musical notes and menu enums.
use vstd::prelude::*;

pub mod dsp;
pub mod generative;
pub mod gui;
pub mod menu_enum;
pub mod musical;
pub mod settings;
