//! A keyboard-state display: a fixed table maps physical keys to lamps, and
//! key presses and releases light and clear those lamps.

pub mod app;
pub mod key;
pub mod laws;
pub mod layout;
