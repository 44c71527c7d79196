//! Verified display pipeline for a 128x32 monochrome OLED panel driven
//! by an SSD1306 controller over I2C.
//!
//! The crate models the I2C bus as a [`transport::Transport`] trait with
//! a single blocking `write`, frames SSD1306 command and data
//! transactions on top of it, rasterizes text from a bundled 8x13 font
//! into a packed framebuffer, and formats a millisecond clock as
//! `MM:SS.cc`. Every transaction a flush emits is pinned down by the
//! contracts, so host-side tests can replay them against a recording
//! transport.

pub mod clock;
pub mod driver;
pub mod fb;
pub mod font;
pub mod oled;
pub mod raster;
pub mod transport;
