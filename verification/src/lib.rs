//! Typed key codes for the SDL2 keyboard interface.
//!
//! SDL identifies a key by a 32-bit signed integer, its key code. This crate
//! gives each key code a name, converts between the names and the integers,
//! and proves that the conversion loses nothing in either direction.

pub mod keycode;
pub mod laws;
