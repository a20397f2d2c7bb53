//! Driver core for an SSD1306-class monochrome OLED controller reached over a
//! two-wire serial bus.
//!
//! The crate encodes every supported controller command into its exact wire
//! bytes, tracks the controller's addressing state (mode, page, column start),
//! and sequences the initialization and render-loop command streams on top of
//! an abstract byte transport.

pub mod commands;
pub mod display;
pub mod render;
pub mod state;
pub mod transport;
