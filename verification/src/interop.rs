//! Reference data of the device protocol.

pub mod opos;
