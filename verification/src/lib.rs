//! An interactive terminal menu for picking one of several configured
//! shells: a renderer that lays out the selectable list, an input state
//! machine that interprets keys as navigation, selection or cancellation,
//! and the configuration types the menu displays.

pub mod config;
pub mod menu;
pub mod render;
