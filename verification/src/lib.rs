//! Driver core for a Modbus-RTU field sensor.
//!
//! The library describes one device family and implements the three-operation
//! driver capability interface that a host dispatches through: `describe` the
//! device, `build_request` for a variable, and `decode_response` for the raw
//! bytes that come back from the wire. All byte formats (the request and
//! response frames, the CRC-16 integrity check, and the canonical
//! self-describing encoding of descriptors and readings) are specified and
//! verified here; physical I/O and the host's module loading stay outside.

pub mod crc;
pub mod error;
pub mod frame;
pub mod json;
pub mod models;
pub mod sensor;
