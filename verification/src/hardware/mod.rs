//! What the peripherals hand to the core and take from it, as plain values.

pub mod config;
pub mod led;
pub mod nfc;
