//! Backend logic of a desktop launcher: desktop-entry scanning, the tile
//! configuration store, shell launch plans and autostart decisions.

pub mod desktop_entry;
pub mod catalog;
pub mod config;
pub mod launcher;
pub mod autostart;
pub mod monitor;
