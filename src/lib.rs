//! A launcher that loads three paths from a TOML document, checks that the
//! files they name are present, toggles a DLL between its enabled and
//! disabled names, and decides what the driving program does next.
//!
//! Everything that touches the disk, the terminal or other processes is left
//! to the caller: the functions here take what was observed as plain values
//! and return what to do.

pub mod toggle;
pub mod config;
pub mod validate;
pub mod menu;
pub mod session;
