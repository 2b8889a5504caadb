//! Turns text typed with a Korean two-set (dubeolsik) keyboard layout back
//! into the English keys that were pressed.
pub mod hangul;
pub mod keymap;
pub mod converter;
