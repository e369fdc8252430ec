//! The logic of a monitor for the Mercury 236 three-phase electricity meter:
//! framing and checking of the serial protocol, decoding of its readings, the
//! polling cycle, and the MQTT messages that announce and carry the readings.

pub mod crc;
pub mod decode;
pub mod discovery;
pub mod error;
pub mod exchange;
pub mod frame;
pub mod json;
pub mod meter;
pub mod mqtt;
pub mod number;
pub mod polynomial;
pub mod report;
pub mod sensor;
pub mod session;
pub mod settings;
pub mod snapshot;
pub mod text;
