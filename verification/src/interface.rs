//! Interface holders for concrete transports.

pub mod i2c;
