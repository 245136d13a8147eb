//! Decoding of RuuviTag sensor broadcasts (data format 5) and the rules of the
//! bridge that turns Bluetooth advertisement events into a stream of readings.

pub mod bluetooth;
pub mod bridge;
pub mod envelope;
pub mod error;
pub mod ruuvitag;
pub mod text;
