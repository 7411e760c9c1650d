//! Drivers for a VL6180X time-of-flight range sensor and a small SSD1306
//! text display sharing one I2C bus, and the measurement cycle that joins
//! them.
//!
//! The drivers perform no bus I/O themselves: they describe each transfer
//! they need and decide what to do with its outcome, so that every decision
//! can be verified. The caller owns the bus, serialises access to it, and
//! carries out the transfers one at a time.
pub mod frame;
pub mod vl6180x;
pub mod cycle;
pub mod oled;

pub use cycle::{cycle_step, range_text, CycleAction, CycleStage};
pub use frame::{BusReply, Transfer, TransportError};
pub use oled::Oled;
pub use vl6180x::{SensorError, Stage, VL6180X};
