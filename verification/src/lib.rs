//! Verified core of a BLE thermometer reader.
//!
//! The crate holds the logic of a small desktop application that discovers a
//! Bluetooth Low Energy thermometer, subscribes to its temperature
//! notifications, decodes each sample and keeps a short rolling window of
//! values for display. Everything that talks to the BLE stack or to the GUI
//! toolkit is unverified glue around this crate; what is here is the part
//! worth proving:
//!
//! - [`codec`]: bit-exact decoding of the five-byte notification payload;
//! - [`gatt`]: expansion of 16-bit assigned numbers against the Bluetooth
//!   base UUID, and lookup of the Temperature Measurement characteristic;
//! - [`select`]: the peripheral selection rule (first advertised local name
//!   containing `Temperature`);
//! - [`pipeline`]: the acquisition protocol as a state machine, one verified
//!   transition per event reported by the BLE stack;
//! - [`window`]: the display sink's fixed-capacity rolling sample window.

pub mod codec;
pub mod gatt;
pub mod pipeline;
pub mod select;
pub mod window;
