//! Configuration and decoding of the motion-detection interrupts: per-source
//! enable bits, the interrupt pin, latching, and the decoded status flags.

use vstd::prelude::*;

use crate::bus::Bus;
use crate::register::{Bitmasks, Registers};
use crate::{
    spec_clear_bits,
    spec_rmw_log,
    spec_set_bits,
    Error,
    Flag,
    IntActive,
    IntLatch,
    IntPin,
    MSA301,
};

verus! {

/// Motion interrupts status.
#[derive(Debug)]
pub struct InterruptStatus {
    pub orientation: bool,
    pub single_tap: bool,
    pub double_tap: bool,
    pub active: bool,
    pub freefall: bool,
}

/// Motion interrupts configuration.
#[derive(Debug)]
pub struct InterruptConfig {
    pub pin_output: IntPin,
    pub pin_active: IntActive,
    pub orientation: Flag,
    pub single_tap: Flag,
    pub double_tap: Flag,
    pub active: Flag,
    pub freefall: Flag,
    pub new_data: Flag,
}

impl InterruptConfig {
    /// The default interrupt configuration: push-pull active-high pin, every
    /// interrupt source disabled.
    pub open spec fn spec_default() -> InterruptConfig {
        InterruptConfig {
            pin_output: IntPin::PushPull,
            pin_active: IntActive::High,
            orientation: Flag::Disable,
            single_tap: Flag::Disable,
            double_tap: Flag::Disable,
            active: Flag::Disable,
            freefall: Flag::Disable,
            new_data: Flag::Disable,
        }
    }
}

impl Default for InterruptConfig {
    fn default() -> (r: Self)
        ensures
            r == InterruptConfig::spec_default(),
    {
        InterruptConfig {
            pin_output: IntPin::PushPull,
            pin_active: IntActive::High,
            orientation: Flag::Disable,
            single_tap: Flag::Disable,
            double_tap: Flag::Disable,
            active: Flag::Disable,
            freefall: Flag::Disable,
            new_data: Flag::Disable,
        }
    }
}

/// The register value after an enable flag was applied to the masked bit:
/// enabling sets it, disabling clears it.
pub open spec fn spec_flag_applied(v: u8, mask: u8, flag: Flag) -> u8 {
    match flag {
        Flag::Enable => spec_set_bits(v, mask),
        Flag::Disable => spec_clear_bits(v, mask),
    }
}

/// The interrupt status flags a motion-interrupt register byte decodes to.
pub open spec fn spec_motion_status(b: u8) -> InterruptStatus {
    InterruptStatus {
        orientation: b & 0b0100_0000 != 0,
        single_tap: b & 0b0010_0000 != 0,
        double_tap: b & 0b0001_0000 != 0,
        active: b & 0b0000_0100 != 0,
        freefall: b & 0b0000_0001 != 0,
    }
}

/// The interrupt pin configuration byte: open-drain sets bit 1, active-high
/// sets bit 0.
pub open spec fn spec_pin_cfg(output: IntPin, active: IntActive) -> u8 {
    (match output {
        IntPin::OpenDrain => 0b10u8,
        IntPin::PushPull => 0b00u8,
    }) | (match active {
        IntActive::High => 0b01u8,
        IntActive::Low => 0b00u8,
    })
}

impl<B: Bus> MSA301<B> {
    /// Enable/disable new data interrupt.
    pub fn new_data_int(&mut self, flag: Flag) -> (r: Result<(), Error<B::BusError>>)
        requires
            old(self).wf(),
        ensures
            final(self).wf(),
            final(self).spec_config() == old(self).spec_config(),
            final(self).spec_infallible() == old(self).spec_infallible(),
            old(self).spec_infallible() ==> r is Ok,
            r is Ok ==> ({
                let a = Registers::INT_SET1.spec_addr();
                let v0 = old(self).spec_regs()[a];
                let v1 = spec_flag_applied(v0, Bitmasks::NEW_DATA_INT_EN, flag);
                &&& final(self).spec_regs() == old(self).spec_regs().insert(a, v1)
                &&& final(self).spec_writes() == spec_rmw_log(old(self).spec_writes(), a, v0, v1)
            }),
            r is Err ==> final(self).spec_writes() == old(self).spec_writes(),
            r is Err ==> r->Err_0 is I2C,
    {
        match flag {
            Flag::Disable => self.clear_register_bit_flag(
                Registers::INT_SET1,
                Bitmasks::NEW_DATA_INT_EN,
            ),
            Flag::Enable => self.set_register_bit_flag(
                Registers::INT_SET1,
                Bitmasks::NEW_DATA_INT_EN,
            ),
        }
    }

    /// Enable/disable freefall interrupt.
    pub fn freefall_int(&mut self, flag: Flag) -> (r: Result<(), Error<B::BusError>>)
        requires
            old(self).wf(),
        ensures
            final(self).wf(),
            final(self).spec_config() == old(self).spec_config(),
            final(self).spec_infallible() == old(self).spec_infallible(),
            old(self).spec_infallible() ==> r is Ok,
            r is Ok ==> ({
                let a = Registers::INT_SET1.spec_addr();
                let v0 = old(self).spec_regs()[a];
                let v1 = spec_flag_applied(v0, Bitmasks::FREEFALL_INT_EN, flag);
                &&& final(self).spec_regs() == old(self).spec_regs().insert(a, v1)
                &&& final(self).spec_writes() == spec_rmw_log(old(self).spec_writes(), a, v0, v1)
            }),
            r is Err ==> final(self).spec_writes() == old(self).spec_writes(),
            r is Err ==> r->Err_0 is I2C,
    {
        match flag {
            Flag::Disable => self.clear_register_bit_flag(
                Registers::INT_SET1,
                Bitmasks::FREEFALL_INT_EN,
            ),
            Flag::Enable => self.set_register_bit_flag(
                Registers::INT_SET1,
                Bitmasks::FREEFALL_INT_EN,
            ),
        }
    }

    /// Enable/disable orientation interrupt.
    pub fn orient_int(&mut self, flag: Flag) -> (r: Result<(), Error<B::BusError>>)
        requires
            old(self).wf(),
        ensures
            final(self).wf(),
            final(self).spec_config() == old(self).spec_config(),
            final(self).spec_infallible() == old(self).spec_infallible(),
            old(self).spec_infallible() ==> r is Ok,
            r is Ok ==> ({
                let a = Registers::INT_SET0.spec_addr();
                let v0 = old(self).spec_regs()[a];
                let v1 = spec_flag_applied(v0, Bitmasks::ORIENT_INT_EN, flag);
                &&& final(self).spec_regs() == old(self).spec_regs().insert(a, v1)
                &&& final(self).spec_writes() == spec_rmw_log(old(self).spec_writes(), a, v0, v1)
            }),
            r is Err ==> final(self).spec_writes() == old(self).spec_writes(),
            r is Err ==> r->Err_0 is I2C,
    {
        match flag {
            Flag::Disable => self.clear_register_bit_flag(
                Registers::INT_SET0,
                Bitmasks::ORIENT_INT_EN,
            ),
            Flag::Enable => self.set_register_bit_flag(Registers::INT_SET0, Bitmasks::ORIENT_INT_EN),
        }
    }

    /// Enable/disable single tap interrupt.
    pub fn single_tap_int(&mut self, flag: Flag) -> (r: Result<(), Error<B::BusError>>)
        requires
            old(self).wf(),
        ensures
            final(self).wf(),
            final(self).spec_config() == old(self).spec_config(),
            final(self).spec_infallible() == old(self).spec_infallible(),
            old(self).spec_infallible() ==> r is Ok,
            r is Ok ==> ({
                let a = Registers::INT_SET0.spec_addr();
                let v0 = old(self).spec_regs()[a];
                let v1 = spec_flag_applied(v0, Bitmasks::S_TAP_INT_EN, flag);
                &&& final(self).spec_regs() == old(self).spec_regs().insert(a, v1)
                &&& final(self).spec_writes() == spec_rmw_log(old(self).spec_writes(), a, v0, v1)
            }),
            r is Err ==> final(self).spec_writes() == old(self).spec_writes(),
            r is Err ==> r->Err_0 is I2C,
    {
        match flag {
            Flag::Disable => self.clear_register_bit_flag(Registers::INT_SET0, Bitmasks::S_TAP_INT_EN),
            Flag::Enable => self.set_register_bit_flag(Registers::INT_SET0, Bitmasks::S_TAP_INT_EN),
        }
    }

    /// Enable/disable double tap interrupt.
    pub fn double_tap_int(&mut self, flag: Flag) -> (r: Result<(), Error<B::BusError>>)
        requires
            old(self).wf(),
        ensures
            final(self).wf(),
            final(self).spec_config() == old(self).spec_config(),
            final(self).spec_infallible() == old(self).spec_infallible(),
            old(self).spec_infallible() ==> r is Ok,
            r is Ok ==> ({
                let a = Registers::INT_SET0.spec_addr();
                let v0 = old(self).spec_regs()[a];
                let v1 = spec_flag_applied(v0, Bitmasks::D_TAP_INT_EN, flag);
                &&& final(self).spec_regs() == old(self).spec_regs().insert(a, v1)
                &&& final(self).spec_writes() == spec_rmw_log(old(self).spec_writes(), a, v0, v1)
            }),
            r is Err ==> final(self).spec_writes() == old(self).spec_writes(),
            r is Err ==> r->Err_0 is I2C,
    {
        match flag {
            Flag::Disable => self.clear_register_bit_flag(Registers::INT_SET0, Bitmasks::D_TAP_INT_EN),
            Flag::Enable => self.set_register_bit_flag(Registers::INT_SET0, Bitmasks::D_TAP_INT_EN),
        }
    }

    /// Enable/disable active interrupt for X axis.
    pub fn active_xaxis_int(&mut self, flag: Flag) -> (r: Result<(), Error<B::BusError>>)
        requires
            old(self).wf(),
        ensures
            final(self).wf(),
            final(self).spec_config() == old(self).spec_config(),
            final(self).spec_infallible() == old(self).spec_infallible(),
            old(self).spec_infallible() ==> r is Ok,
            r is Ok ==> ({
                let a = Registers::INT_SET0.spec_addr();
                let v0 = old(self).spec_regs()[a];
                let v1 = spec_flag_applied(v0, Bitmasks::ACTIVE_INT_EN_X, flag);
                &&& final(self).spec_regs() == old(self).spec_regs().insert(a, v1)
                &&& final(self).spec_writes() == spec_rmw_log(old(self).spec_writes(), a, v0, v1)
            }),
            r is Err ==> final(self).spec_writes() == old(self).spec_writes(),
            r is Err ==> r->Err_0 is I2C,
    {
        match flag {
            Flag::Disable => self.clear_register_bit_flag(
                Registers::INT_SET0,
                Bitmasks::ACTIVE_INT_EN_X,
            ),
            Flag::Enable => self.set_register_bit_flag(
                Registers::INT_SET0,
                Bitmasks::ACTIVE_INT_EN_X,
            ),
        }
    }

    /// Enable/disable active interrupt for Y axis.
    pub fn active_yaxis_int(&mut self, flag: Flag) -> (r: Result<(), Error<B::BusError>>)
        requires
            old(self).wf(),
        ensures
            final(self).wf(),
            final(self).spec_config() == old(self).spec_config(),
            final(self).spec_infallible() == old(self).spec_infallible(),
            old(self).spec_infallible() ==> r is Ok,
            r is Ok ==> ({
                let a = Registers::INT_SET0.spec_addr();
                let v0 = old(self).spec_regs()[a];
                let v1 = spec_flag_applied(v0, Bitmasks::ACTIVE_INT_EN_Y, flag);
                &&& final(self).spec_regs() == old(self).spec_regs().insert(a, v1)
                &&& final(self).spec_writes() == spec_rmw_log(old(self).spec_writes(), a, v0, v1)
            }),
            r is Err ==> final(self).spec_writes() == old(self).spec_writes(),
            r is Err ==> r->Err_0 is I2C,
    {
        match flag {
            Flag::Disable => self.clear_register_bit_flag(
                Registers::INT_SET0,
                Bitmasks::ACTIVE_INT_EN_Y,
            ),
            Flag::Enable => self.set_register_bit_flag(
                Registers::INT_SET0,
                Bitmasks::ACTIVE_INT_EN_Y,
            ),
        }
    }

    /// Enable/disable active interrupt for Z axis.
    pub fn active_zaxis_int(&mut self, flag: Flag) -> (r: Result<(), Error<B::BusError>>)
        requires
            old(self).wf(),
        ensures
            final(self).wf(),
            final(self).spec_config() == old(self).spec_config(),
            final(self).spec_infallible() == old(self).spec_infallible(),
            old(self).spec_infallible() ==> r is Ok,
            r is Ok ==> ({
                let a = Registers::INT_SET0.spec_addr();
                let v0 = old(self).spec_regs()[a];
                let v1 = spec_flag_applied(v0, Bitmasks::ACTIVE_INT_EN_Z, flag);
                &&& final(self).spec_regs() == old(self).spec_regs().insert(a, v1)
                &&& final(self).spec_writes() == spec_rmw_log(old(self).spec_writes(), a, v0, v1)
            }),
            r is Err ==> final(self).spec_writes() == old(self).spec_writes(),
            r is Err ==> r->Err_0 is I2C,
    {
        match flag {
            Flag::Disable => self.clear_register_bit_flag(
                Registers::INT_SET0,
                Bitmasks::ACTIVE_INT_EN_Z,
            ),
            Flag::Enable => self.set_register_bit_flag(
                Registers::INT_SET0,
                Bitmasks::ACTIVE_INT_EN_Z,
            ),
        }
    }

    /// Check if new data is available: bit 0 of the data-interrupt register.
    pub fn is_new_data(&mut self) -> (r: Result<bool, Error<B::BusError>>)
        requires
            old(self).wf(),
        ensures
            final(self).wf(),
            final(self).spec_regs() == old(self).spec_regs(),
            final(self).spec_writes() == old(self).spec_writes(),
            final(self).spec_config() == old(self).spec_config(),
            final(self).spec_infallible() == old(self).spec_infallible(),
            old(self).spec_infallible() ==> r is Ok,
            r matches Ok(b) ==> b == (old(self).spec_regs()[Registers::DATA_INT.spec_addr()]
                & Bitmasks::NEW_DATA_INT != 0),
            r is Err ==> r->Err_0 is I2C,
    {
        let data = match self.read_register(Registers::DATA_INT) {
            Ok(d) => d,
            Err(e) => {
                return Err(e);
            },
        };
        Ok(data & Bitmasks::NEW_DATA_INT != 0)
    }

    /// Configure the interrupt pin: output mode (push-pull or open-drain)
    /// and active level.
    pub fn pin_config(&mut self, output: IntPin, active: IntActive) -> (r: Result<
        (),
        Error<B::BusError>,
    >)
        requires
            old(self).wf(),
        ensures
            final(self).wf(),
            final(self).spec_config() == old(self).spec_config(),
            final(self).spec_infallible() == old(self).spec_infallible(),
            old(self).spec_infallible() ==> r is Ok,
            r is Ok ==> final(self).spec_regs() == old(self).spec_regs().insert(
                Registers::INT_CFG.spec_addr(),
                spec_pin_cfg(output, active),
            ),
            r is Ok ==> final(self).spec_writes() == old(self).spec_writes().push(
                (Registers::INT_CFG.spec_addr(), spec_pin_cfg(output, active)),
            ),
            r is Err ==> final(self).spec_writes() == old(self).spec_writes(),
            r is Err ==> r->Err_0 is I2C,
    {
        let pin_out: u8 = match output {
            IntPin::OpenDrain => 0b10,
            IntPin::PushPull => 0b00,
        };
        let pin_active: u8 = match active {
            IntActive::High => 0b01,
            IntActive::Low => 0b00,
        };
        let data = pin_out + pin_active;
        proof {
            assert(pin_out | pin_active == pin_out + pin_active) by (bit_vector)
                requires
                    pin_out == 0b10u8 || pin_out == 0b00u8,
                    pin_active == 0b01u8 || pin_active == 0b00u8,
            ;
        }
        self.write_register(Registers::INT_CFG, data)
    }

    /// Route the new-data interrupt to the INT pin.
    pub fn new_data_pin(&mut self, setting: Flag) -> (r: Result<(), Error<B::BusError>>)
        requires
            old(self).wf(),
        ensures
            final(self).wf(),
            final(self).spec_config() == old(self).spec_config(),
            final(self).spec_infallible() == old(self).spec_infallible(),
            old(self).spec_infallible() ==> r is Ok,
            r is Ok ==> ({
                let v = if setting.spec_status() {
                    0x01u8
                } else {
                    0x00u8
                };
                &&& final(self).spec_regs() == old(self).spec_regs().insert(
                    Registers::INT_MAP1.spec_addr(),
                    v,
                )
                &&& final(self).spec_writes() == old(self).spec_writes().push(
                    (Registers::INT_MAP1.spec_addr(), v),
                )
            }),
            r is Err ==> final(self).spec_writes() == old(self).spec_writes(),
            r is Err ==> r->Err_0 is I2C,
    {
        let val = match setting {
            Flag::Enable => 0x01,
            Flag::Disable => 0x00,
        };
        self.write_register(Registers::INT_MAP1, val)
    }

    /// Set interrupt latching: a read-modify-write of the latch register's
    /// own fields, the reset bit and the latch duration code.
    pub fn set_int_latch(&mut self, reset: bool, setting: IntLatch) -> (r: Result<
        (),
        Error<B::BusError>,
    >)
        requires
            old(self).wf(),
        ensures
            final(self).wf(),
            final(self).spec_config() == old(self).spec_config(),
            final(self).spec_infallible() == old(self).spec_infallible(),
            old(self).spec_infallible() ==> r is Ok,
            r is Ok ==> ({
                let a = Registers::INT_LATCH.spec_addr();
                let v1 = (old(self).spec_regs()[a] & !(Bitmasks::RESET_INT | Bitmasks::LATCH_INT))
                    | (if reset {
                    Bitmasks::RESET_INT
                } else {
                    0u8
                }) | setting.spec_value();
                &&& final(self).spec_regs() == old(self).spec_regs().insert(a, v1)
                &&& final(self).spec_writes() == old(self).spec_writes().push((a, v1))
            }),
            r is Err ==> final(self).spec_writes() == old(self).spec_writes(),
            r is Err ==> r->Err_0 is I2C,
    {
        let reg = match self.read_register(Registers::INT_LATCH) {
            Ok(d) => d,
            Err(e) => {
                return Err(e);
            },
        };
        let reset_bit: u8 = if reset {
            Bitmasks::RESET_INT
        } else {
            0
        };
        let data = (reg & !(Bitmasks::RESET_INT | Bitmasks::LATCH_INT)) | reset_bit
            | setting.value();
        self.write_register(Registers::INT_LATCH, data)
    }

    /// Get motion interrupts status: the five flag bits of the
    /// motion-interrupt register decoded into named booleans.
    pub fn motion_int_status(&mut self) -> (r: Result<InterruptStatus, Error<B::BusError>>)
        requires
            old(self).wf(),
        ensures
            final(self).wf(),
            final(self).spec_regs() == old(self).spec_regs(),
            final(self).spec_writes() == old(self).spec_writes(),
            final(self).spec_config() == old(self).spec_config(),
            final(self).spec_infallible() == old(self).spec_infallible(),
            old(self).spec_infallible() ==> r is Ok,
            r matches Ok(s) ==> s == spec_motion_status(
                old(self).spec_regs()[Registers::MOTION_INT.spec_addr()],
            ),
            r is Err ==> r->Err_0 is I2C,
    {
        let data = match self.read_register(Registers::MOTION_INT) {
            Ok(d) => d,
            Err(e) => {
                return Err(e);
            },
        };
        let status = InterruptStatus {
            orientation: data & 0b0100_0000 != 0,
            single_tap: data & 0b0010_0000 != 0,
            double_tap: data & 0b0001_0000 != 0,
            active: data & 0b0000_0100 != 0,
            freefall: data & 0b0000_0001 != 0,
        };
        Ok(status)
    }
}

} // verus!
