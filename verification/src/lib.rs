//! Decision logic of a tray tool that switches between a light and a dark
//! desktop theme at local sunrise and sunset.
//!
//! Everything here is pure: the caller performs the I/O (clock, registry,
//! files, astronomy) and hands plain values in.

pub mod theme;
pub mod tick;
pub mod schedule;
pub mod text;
pub mod theme_file;
pub mod config;
pub mod icon;
pub mod apply;
pub mod session;
