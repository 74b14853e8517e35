//! Driver engine for ST7789V-class TFT display controllers.
//!
//! The engine does not touch hardware itself: every operation yields the exact
//! sequence of control-line transitions, bus writes and delays that the
//! controller expects, as a list of [`Op`] values. A transport layer performs
//! those in order and stops at the first failure.
pub mod bus;
pub mod command;
pub mod driver;
pub mod geometry;
pub mod madctl;
pub mod stream;

pub use bus::{Op, OpView};
pub use command::Command;
pub use driver::{EngineState, Error, ST7789VConfig, ST7789V};
pub use geometry::Rotate;
pub use madctl::{
    ColorFormat, ColorOrder, ColumnAddressOrder, LatchOrder, LineAddressOrder, MemAccCtrlConfig,
    PageAddressOrder, PageColumnOrder,
};
