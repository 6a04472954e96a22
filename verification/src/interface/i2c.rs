//! I2C interface holder: the fixed device address and a bus instance.

use vstd::prelude::*;

verus! {

/// Errors of the I2C interface.
#[derive(Debug)]
pub enum Error<CommE> {
    /// Communication error
    Comm(CommE),
}

/// Accelerometer address for I2C communication.
#[allow(non_camel_case_types)]
#[derive(Debug, Clone, Copy)]
pub enum I2cAddress {
    /// Only one I2C address
    Address,
}

impl I2cAddress {
    /// The fixed 7-bit device address.
    pub open spec fn spec_addr(self) -> u8 {
        0b0010_0110
    }

    pub fn addr(self) -> (r: u8)
        ensures
            r == self.spec_addr(),
    {
        0b0010_0110
    }
}

/// This holds an I2C bus instance and the device address.
pub struct I2cInterface<I2C> {
    i2c: I2C,
    dev_addr: u8,
}

impl<I2C> I2cInterface<I2C> {
    /// The device address the interface was initialized with.
    pub closed spec fn spec_dev_addr(&self) -> u8 {
        self.dev_addr
    }

    /// Initializes an interface with an I2C instance and a device address.
    pub fn init(i2c: I2C, dev_addr: I2cAddress) -> (r: Self)
        ensures
            r.spec_dev_addr() == dev_addr.spec_addr(),
    {
        Self { i2c, dev_addr: dev_addr.addr() }
    }
}

} // verus!
