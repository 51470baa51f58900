//! Interaction logic of the GUI components.
pub mod components;
pub mod menu;
pub mod button;
pub mod eq_display;
pub mod rdp;
pub mod spectrum;
pub mod gradient;
pub mod label;
