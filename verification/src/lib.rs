//! A platform agnostic driver for the MSA301 digital accelerometer.
//!
//! The driver speaks to the chip through the [`bus::Bus`] capability:
//! single-byte register reads and writes against a fixed device address, plus
//! a six-byte burst read. High-level settings (data rate, bandwidth, power
//! mode, resolution, full-scale range, axis enables) are packed into the
//! three configuration registers via the bit masks in [`register`], and raw
//! two's-complement sample bytes are unpacked back into signed axis counts.
//!
//! Every driver operation is specified against the model of the bus: the
//! register file visible behind it and the ordered log of register writes
//! issued over it.

use vstd::prelude::*;

pub mod bus;
pub mod config;
pub mod interface;
pub mod interrupt;
pub mod register;
pub mod sensor;

use bus::Bus;
use config::AccelConfig;
use register::Registers;

verus! {

/// All possible errors in this crate.
#[derive(Debug)]
pub enum Error<E> {
    /// Bus error, wrapping the transport's own error value.
    I2C(E),
    /// Invalid input data.
    InvalidInputData,
}

/// The value a register holds after setting the masked bits.
pub open spec fn spec_set_bits(v: u8, mask: u8) -> u8 {
    v | mask
}

/// The value a register holds after clearing the masked bits.
pub open spec fn spec_clear_bits(v: u8, mask: u8) -> u8 {
    v & !mask
}

/// The write log after a read-modify-write of register `a` from `oldv` to
/// `newv`: a write is issued only when the value actually changes.
pub open spec fn spec_rmw_log(w: Seq<(u8, u8)>, a: u8, oldv: u8, newv: u8) -> Seq<(u8, u8)> {
    if newv == oldv {
        w
    } else {
        w.push((a, newv))
    }
}

/// Setting bits leaves all masked bits set, and setting them again changes
/// nothing further.
pub proof fn lemma_set_bits_idempotent(v: u8, mask: u8)
    ensures
        spec_set_bits(v, mask) & mask == mask,
        spec_set_bits(spec_set_bits(v, mask), mask) == spec_set_bits(v, mask),
{
    assert((v | mask) & mask == mask) by (bit_vector);
    assert((v | mask) | mask == v | mask) by (bit_vector);
}

/// Clearing bits leaves no masked bit set, and clearing them again changes
/// nothing further.
pub proof fn lemma_clear_bits_idempotent(v: u8, mask: u8)
    ensures
        spec_clear_bits(v, mask) & mask == 0,
        spec_clear_bits(spec_clear_bits(v, mask), mask) == spec_clear_bits(v, mask),
{
    assert((v & !mask) & mask == 0) by (bit_vector);
    assert((v & !mask) & !mask == v & !mask) by (bit_vector);
}

/// Of two set-bits calls with the same mask, the second issues no bus write:
/// after the first, the masked bits are already set.
pub proof fn lemma_set_bits_second_call_logs_nothing(w: Seq<(u8, u8)>, a: u8, v: u8, mask: u8)
    ensures
        spec_rmw_log(w, a, spec_set_bits(v, mask), spec_set_bits(spec_set_bits(v, mask), mask))
            == w,
{
    lemma_set_bits_idempotent(v, mask);
}

/// Of two clear-bits calls with the same mask, the second issues no bus
/// write: after the first, no masked bit is left set.
pub proof fn lemma_clear_bits_second_call_logs_nothing(w: Seq<(u8, u8)>, a: u8, v: u8, mask: u8)
    ensures
        spec_rmw_log(
            w,
            a,
            spec_clear_bits(v, mask),
            spec_clear_bits(spec_clear_bits(v, mask), mask),
        ) == w,
{
    lemma_clear_bits_idempotent(v, mask);
}

/// Holds the driver instance with its bus capability and the cached
/// configuration used for sample scaling.
#[derive(Debug)]
pub struct MSA301<B: Bus> {
    /// The concrete bus implementation.
    i2c: B,
    config: AccelConfig,
}

impl<B: Bus> MSA301<B> {
    /// The device's register file as visible through the driver's bus.
    pub open(crate) spec fn spec_regs(&self) -> Map<u8, u8> {
        self.i2c.regs()
    }

    /// The register writes the driver's bus has issued, in order.
    pub open(crate) spec fn spec_writes(&self) -> Seq<(u8, u8)> {
        self.i2c.writes()
    }

    /// Whether the driver's bus promises that transactions never fail.
    pub open(crate) spec fn spec_infallible(&self) -> bool {
        self.i2c.infallible()
    }

    /// The cached configuration snapshot.
    pub open(crate) spec fn spec_config(&self) -> AccelConfig {
        self.config
    }

    /// The bus model maps every register address.
    pub open spec fn wf(&self) -> bool {
        forall|a: u8| #[trigger] self.spec_regs().dom().contains(a)
    }

    /// Create a new instance of the MSA301 driver; the bus is not touched.
    pub fn new(i2c: B, config: AccelConfig) -> (r: Self)
        ensures
            r.spec_regs() == i2c.regs(),
            r.spec_writes() == i2c.writes(),
            r.spec_infallible() == i2c.infallible(),
            r.spec_config() == config,
    {
        MSA301 { i2c, config }
    }

    /// Destroy driver instance, return the bus instance.
    pub fn destroy(self) -> (r: B)
        ensures
            r.regs() == self.spec_regs(),
            r.writes() == self.spec_writes(),
            r.infallible() == self.spec_infallible(),
    {
        self.i2c
    }

    /// Initialize sensor with a chosen configuration: the three configuration
    /// registers are written in the order axis/rate, power/bandwidth,
    /// resolution/range, and the cached configuration is overwritten on
    /// success. A mid-sequence failure leaves the device partially
    /// reconfigured and the cached configuration unchanged.
    pub fn init_sensor(&mut self, config: AccelConfig) -> (r: Result<(), Error<B::BusError>>)
        requires
            old(self).wf(),
        ensures
            final(self).wf(),
            final(self).spec_infallible() == old(self).spec_infallible(),
            old(self).spec_infallible() ==> r is Ok,
            r is Ok ==> final(self).spec_config() == config,
            r is Ok ==> final(self).spec_regs() == old(self).spec_regs().insert(
                Registers::CFG_ODR.spec_addr(),
                config.spec_cfg_odr(),
            ).insert(Registers::PWR_BW.spec_addr(), config.spec_pwr_bw()).insert(
                Registers::RES_RANGE.spec_addr(),
                config.spec_res_range(),
            ),
            r is Ok ==> final(self).spec_writes() == old(self).spec_writes().push(
                (Registers::CFG_ODR.spec_addr(), config.spec_cfg_odr()),
            ).push((Registers::PWR_BW.spec_addr(), config.spec_pwr_bw())).push(
                (Registers::RES_RANGE.spec_addr(), config.spec_res_range()),
            ),
            r is Err ==> final(self).spec_config() == old(self).spec_config(),
            r is Err ==> r->Err_0 is I2C,
    {
        match self.write_register(Registers::CFG_ODR, config.cfg_odr()) {
            Ok(()) => {},
            Err(e) => {
                return Err(e);
            },
        }
        match self.write_register(Registers::PWR_BW, config.pwr_bw()) {
            Ok(()) => {},
            Err(e) => {
                return Err(e);
            },
        }
        match self.write_register(Registers::RES_RANGE, config.res_range()) {
            Ok(()) => {},
            Err(e) => {
                return Err(e);
            },
        }
        self.config = config;
        Ok(())
    }

    /// Write one byte to a register.
    pub(crate) fn write_register(&mut self, address: Registers, data: u8) -> (r: Result<
        (),
        Error<B::BusError>,
    >)
        requires
            old(self).wf(),
        ensures
            final(self).wf(),
            final(self).spec_config() == old(self).spec_config(),
            final(self).spec_infallible() == old(self).spec_infallible(),
            old(self).spec_infallible() ==> r is Ok,
            r is Ok ==> final(self).spec_regs() == old(self).spec_regs().insert(
                address.spec_addr(),
                data,
            ),
            r is Ok ==> final(self).spec_writes() == old(self).spec_writes().push(
                (address.spec_addr(), data),
            ),
            r is Err ==> final(self).spec_writes() == old(self).spec_writes(),
            r is Err ==> r->Err_0 is I2C,
    {
        let a = address.addr();
        let r = self.i2c.bus_write(a, data);
        proof {
            assert forall|x: u8| #[trigger] self.spec_regs().dom().contains(x) by {
                assert(old(self).spec_regs().dom().contains(x));
            }
        }
        match r {
            Ok(()) => Ok(()),
            Err(e) => Err(Error::I2C(e)),
        }
    }

    /// Read one byte from a register.
    pub fn read_register(&mut self, address: Registers) -> (r: Result<u8, Error<B::BusError>>)
        requires
            old(self).wf(),
        ensures
            final(self).wf(),
            final(self).spec_regs() == old(self).spec_regs(),
            final(self).spec_writes() == old(self).spec_writes(),
            final(self).spec_config() == old(self).spec_config(),
            final(self).spec_infallible() == old(self).spec_infallible(),
            old(self).spec_infallible() ==> r is Ok,
            r matches Ok(v) ==> v == old(self).spec_regs()[address.spec_addr()],
            r is Err ==> r->Err_0 is I2C,
    {
        let a = address.addr();
        let r = self.i2c.bus_read(a);
        proof {
            assert forall|x: u8| #[trigger] self.spec_regs().dom().contains(x) by {
                assert(old(self).spec_regs().dom().contains(x));
            }
        }
        match r {
            Ok(v) => Ok(v),
            Err(e) => Err(Error::I2C(e)),
        }
    }

    /// Set specific bits using a bitmask; a no-op (no bus write) when all
    /// masked bits are already set.
    pub(crate) fn set_register_bit_flag(&mut self, address: Registers, bitmask: u8) -> (r: Result<
        (),
        Error<B::BusError>,
    >)
        requires
            old(self).wf(),
        ensures
            final(self).wf(),
            final(self).spec_config() == old(self).spec_config(),
            final(self).spec_infallible() == old(self).spec_infallible(),
            old(self).spec_infallible() ==> r is Ok,
            r is Ok ==> ({
                let v0 = old(self).spec_regs()[address.spec_addr()];
                &&& final(self).spec_regs() == old(self).spec_regs().insert(
                    address.spec_addr(),
                    spec_set_bits(v0, bitmask),
                )
                &&& final(self).spec_writes() == spec_rmw_log(
                    old(self).spec_writes(),
                    address.spec_addr(),
                    v0,
                    spec_set_bits(v0, bitmask),
                )
            }),
            r is Err ==> final(self).spec_writes() == old(self).spec_writes(),
            r is Err ==> r->Err_0 is I2C,
    {
        let data = match self.read_register(address) {
            Ok(d) => d,
            Err(e) => {
                return Err(e);
            },
        };
        if data & bitmask != bitmask {
            proof {
                assert(data | bitmask != data) by (bit_vector)
                    requires
                        data & bitmask != bitmask,
                ;
            }
            self.write_register(address, data | bitmask)
        } else {
            proof {
                assert(data | bitmask == data) by (bit_vector)
                    requires
                        data & bitmask == bitmask,
                ;
                assert(old(self).spec_regs().insert(address.spec_addr(), data) =~= old(
                    self,
                ).spec_regs());
            }
            Ok(())
        }
    }

    /// Clear specific bits using a bitmask; a no-op (no bus write) when no
    /// masked bit is set.
    pub(crate) fn clear_register_bit_flag(&mut self, address: Registers, bitmask: u8) -> (r:
        Result<(), Error<B::BusError>>)
        requires
            old(self).wf(),
        ensures
            final(self).wf(),
            final(self).spec_config() == old(self).spec_config(),
            final(self).spec_infallible() == old(self).spec_infallible(),
            old(self).spec_infallible() ==> r is Ok,
            r is Ok ==> ({
                let v0 = old(self).spec_regs()[address.spec_addr()];
                &&& final(self).spec_regs() == old(self).spec_regs().insert(
                    address.spec_addr(),
                    spec_clear_bits(v0, bitmask),
                )
                &&& final(self).spec_writes() == spec_rmw_log(
                    old(self).spec_writes(),
                    address.spec_addr(),
                    v0,
                    spec_clear_bits(v0, bitmask),
                )
            }),
            r is Err ==> final(self).spec_writes() == old(self).spec_writes(),
            r is Err ==> r->Err_0 is I2C,
    {
        let data = match self.read_register(address) {
            Ok(d) => d,
            Err(e) => {
                return Err(e);
            },
        };
        if data & bitmask != 0 {
            proof {
                assert(data & !bitmask != data) by (bit_vector)
                    requires
                        data & bitmask != 0,
                ;
            }
            self.write_register(address, data & !bitmask)
        } else {
            proof {
                assert(data & !bitmask == data) by (bit_vector)
                    requires
                        data & bitmask == 0,
                ;
                assert(old(self).spec_regs().insert(address.spec_addr(), data) =~= old(
                    self,
                ).spec_regs());
            }
            Ok(())
        }
    }

    /// Check if specific bits are set.
    pub(crate) fn is_register_bit_flag_high(&mut self, address: Registers, bitmask: u8) -> (r:
        Result<bool, Error<B::BusError>>)
        requires
            old(self).wf(),
        ensures
            final(self).wf(),
            final(self).spec_regs() == old(self).spec_regs(),
            final(self).spec_writes() == old(self).spec_writes(),
            final(self).spec_config() == old(self).spec_config(),
            final(self).spec_infallible() == old(self).spec_infallible(),
            old(self).spec_infallible() ==> r is Ok,
            r matches Ok(b) ==> b == (old(self).spec_regs()[address.spec_addr()] & bitmask != 0),
            r is Err ==> r->Err_0 is I2C,
    {
        let data = match self.read_register(address) {
            Ok(d) => d,
            Err(e) => {
                return Err(e);
            },
        };
        Ok(data & bitmask != 0)
    }
}

/// Output data rate selection.
#[allow(non_camel_case_types)]
#[derive(Debug, Clone, Copy)]
pub enum DataRate {
    /// 1 Hz (not available in normal mode)
    _1Hz,
    /// 1.95 Hz (not available in normal mode)
    _1_95Hz,
    /// 3.90 Hz
    _3_90Hz,
    /// 7.81 Hz
    _7_81Hz,
    /// 15.63 Hz
    _15_63Hz,
    /// 31.25 Hz
    _31_25Hz,
    /// 62.5 Hz
    _62_5Hz,
    /// 125 Hz
    _125Hz,
    /// 250 Hz
    _250Hz,
    /// 500 Hz (not available in low power mode)
    _500Hz,
    /// 1000 Hz (not available in low power mode)
    _1000Hz,
}

impl DataRate {
    /// Data rate code, low nibble of the axis/rate register.
    pub open spec fn spec_value(self) -> u8 {
        match self {
            DataRate::_1Hz => 0b0000,
            DataRate::_1_95Hz => 0b0001,
            DataRate::_3_90Hz => 0b0010,
            DataRate::_7_81Hz => 0b0011,
            DataRate::_15_63Hz => 0b0100,
            DataRate::_31_25Hz => 0b0101,
            DataRate::_62_5Hz => 0b0110,
            DataRate::_125Hz => 0b0111,
            DataRate::_250Hz => 0b1000,
            DataRate::_500Hz => 0b1001,
            DataRate::_1000Hz => 0b1010,
        }
    }

    /// The data rate a low-nibble code decodes to.
    pub open spec fn spec_from_bits(b: u8) -> Option<DataRate> {
        if b == 0b0000 {
            Some(DataRate::_1Hz)
        } else if b == 0b0001 {
            Some(DataRate::_1_95Hz)
        } else if b == 0b0010 {
            Some(DataRate::_3_90Hz)
        } else if b == 0b0011 {
            Some(DataRate::_7_81Hz)
        } else if b == 0b0100 {
            Some(DataRate::_15_63Hz)
        } else if b == 0b0101 {
            Some(DataRate::_31_25Hz)
        } else if b == 0b0110 {
            Some(DataRate::_62_5Hz)
        } else if b == 0b0111 {
            Some(DataRate::_125Hz)
        } else if b == 0b1000 {
            Some(DataRate::_250Hz)
        } else if b == 0b1001 {
            Some(DataRate::_500Hz)
        } else if b == 0b1010 {
            Some(DataRate::_1000Hz)
        } else {
            None
        }
    }

    pub fn value(self) -> (r: u8)
        ensures
            r == self.spec_value(),
    {
        match self {
            DataRate::_1Hz => 0b0000,
            DataRate::_1_95Hz => 0b0001,
            DataRate::_3_90Hz => 0b0010,
            DataRate::_7_81Hz => 0b0011,
            DataRate::_15_63Hz => 0b0100,
            DataRate::_31_25Hz => 0b0101,
            DataRate::_62_5Hz => 0b0110,
            DataRate::_125Hz => 0b0111,
            DataRate::_250Hz => 0b1000,
            DataRate::_500Hz => 0b1001,
            DataRate::_1000Hz => 0b1010,
        }
    }
}

/// Low power bandwidth.
#[allow(non_camel_case_types)]
#[derive(Debug, Clone, Copy)]
pub enum BandWidth {
    /// 1.95 Hz
    _1_95Hz,
    /// 3.90 Hz
    _3_90Hz,
    /// 7.81 Hz
    _7_81Hz,
    /// 15.63 Hz
    _15_63Hz,
    /// 31.25 Hz
    _31_25Hz,
    /// 62.5 Hz
    _62_5Hz,
    /// 125 Hz
    _125Hz,
    /// 250 Hz
    _250Hz,
    /// 500 Hz
    _500Hz,
}

impl BandWidth {
    /// Bandwidth code already shifted into bits 4:1 of the power/bandwidth
    /// register.
    pub open spec fn spec_value(self) -> u8 {
        match self {
            BandWidth::_1_95Hz => 0b0000_0100,
            BandWidth::_3_90Hz => 0b0000_0110,
            BandWidth::_7_81Hz => 0b0000_1000,
            BandWidth::_15_63Hz => 0b0000_1010,
            BandWidth::_31_25Hz => 0b0000_1100,
            BandWidth::_62_5Hz => 0b0000_1110,
            BandWidth::_125Hz => 0b0001_0000,
            BandWidth::_250Hz => 0b0001_0010,
            BandWidth::_500Hz => 0b0001_0100,
        }
    }

    /// The bandwidth a masked power/bandwidth field decodes to.
    pub open spec fn spec_from_bits(b: u8) -> Option<BandWidth> {
        if b == 0b0000_0100 {
            Some(BandWidth::_1_95Hz)
        } else if b == 0b0000_0110 {
            Some(BandWidth::_3_90Hz)
        } else if b == 0b0000_1000 {
            Some(BandWidth::_7_81Hz)
        } else if b == 0b0000_1010 {
            Some(BandWidth::_15_63Hz)
        } else if b == 0b0000_1100 {
            Some(BandWidth::_31_25Hz)
        } else if b == 0b0000_1110 {
            Some(BandWidth::_62_5Hz)
        } else if b == 0b0001_0000 {
            Some(BandWidth::_125Hz)
        } else if b == 0b0001_0010 {
            Some(BandWidth::_250Hz)
        } else if b == 0b0001_0100 {
            Some(BandWidth::_500Hz)
        } else {
            None
        }
    }

    pub fn value(self) -> (r: u8)
        ensures
            r == self.spec_value(),
    {
        match self {
            BandWidth::_1_95Hz => 0b0000_0100,
            BandWidth::_3_90Hz => 0b0000_0110,
            BandWidth::_7_81Hz => 0b0000_1000,
            BandWidth::_15_63Hz => 0b0000_1010,
            BandWidth::_31_25Hz => 0b0000_1100,
            BandWidth::_62_5Hz => 0b0000_1110,
            BandWidth::_125Hz => 0b0001_0000,
            BandWidth::_250Hz => 0b0001_0010,
            BandWidth::_500Hz => 0b0001_0100,
        }
    }
}

/// Power mode.
#[allow(non_camel_case_types)]
#[derive(Debug, Clone, Copy)]
pub enum PowerMode {
    /// Normal mode
    Normal,
    /// Low power mode
    LowPower,
    /// Suspend mode
    Suspend,
}

impl PowerMode {
    /// Power mode code already shifted into bits 7:6 of the power/bandwidth
    /// register.
    pub open spec fn spec_value(self) -> u8 {
        match self {
            PowerMode::Normal => 0b0000_0000,
            PowerMode::LowPower => 0b0100_0000,
            PowerMode::Suspend => 0b1000_0000,
        }
    }

    /// The power mode a masked power/bandwidth field decodes to.
    pub open spec fn spec_from_bits(b: u8) -> Option<PowerMode> {
        if b == 0b0000_0000 {
            Some(PowerMode::Normal)
        } else if b == 0b0100_0000 {
            Some(PowerMode::LowPower)
        } else if b == 0b1000_0000 {
            Some(PowerMode::Suspend)
        } else {
            None
        }
    }

    pub fn value(self) -> (r: u8)
        ensures
            r == self.spec_value(),
    {
        match self {
            PowerMode::Normal => 0b0000_0000,
            PowerMode::LowPower => 0b0100_0000,
            PowerMode::Suspend => 0b1000_0000,
        }
    }
}

/// Resolution of X/Y/Z axes.
#[allow(non_camel_case_types)]
#[derive(Debug, Clone, Copy)]
pub enum Res {
    /// 14-bit
    _14bit,
    /// 12-bit
    _12bit,
    /// 10-bit
    _10bit,
    /// 8-bit
    _8bit,
}

impl Res {
    /// Resolution code already shifted into bits 3:2 of the resolution/range
    /// register.
    pub open spec fn spec_value(self) -> u8 {
        match self {
            Res::_14bit => 0b0000,
            Res::_12bit => 0b0100,
            Res::_10bit => 0b1000,
            Res::_8bit => 0b1100,
        }
    }

    /// The resolution a masked resolution/range field decodes to.
    pub open spec fn spec_from_bits(b: u8) -> Option<Res> {
        if b == 0b0000 {
            Some(Res::_14bit)
        } else if b == 0b0100 {
            Some(Res::_12bit)
        } else if b == 0b1000 {
            Some(Res::_10bit)
        } else if b == 0b1100 {
            Some(Res::_8bit)
        } else {
            None
        }
    }

    pub fn value(self) -> (r: u8)
        ensures
            r == self.spec_value(),
    {
        match self {
            Res::_14bit => 0b0000,
            Res::_12bit => 0b0100,
            Res::_10bit => 0b1000,
            Res::_8bit => 0b1100,
        }
    }
}

/// Acceleration range of X/Y/Z axes.
#[allow(non_camel_case_types)]
#[derive(Debug, Clone, Copy)]
pub enum Range {
    /// +/-2g
    _2g,
    /// +/-4g
    _4g,
    /// +/-8g
    _8g,
    /// +/-16g
    _16g,
}

impl Range {
    /// Range code, bits 1:0 of the resolution/range register.
    pub open spec fn spec_value(self) -> u8 {
        match self {
            Range::_2g => 0b00,
            Range::_4g => 0b01,
            Range::_8g => 0b10,
            Range::_16g => 0b11,
        }
    }

    /// Sensitivity in LSB per g: doubling the range halves the sensitivity.
    pub open spec fn spec_sensitivity(self) -> u16 {
        match self {
            Range::_2g => 4096,
            Range::_4g => 2048,
            Range::_8g => 1024,
            Range::_16g => 512,
        }
    }

    /// The range a masked resolution/range field decodes to.
    pub open spec fn spec_from_bits(b: u8) -> Option<Range> {
        if b == 0b00 {
            Some(Range::_2g)
        } else if b == 0b01 {
            Some(Range::_4g)
        } else if b == 0b10 {
            Some(Range::_8g)
        } else if b == 0b11 {
            Some(Range::_16g)
        } else {
            None
        }
    }

    pub fn value(self) -> (r: u8)
        ensures
            r == self.spec_value(),
    {
        match self {
            Range::_2g => 0b00,
            Range::_4g => 0b01,
            Range::_8g => 0b10,
            Range::_16g => 0b11,
        }
    }

    /// Return sensitivity value corresponding to the selected range.
    pub fn sensitivity(self) -> (r: u16)
        ensures
            r == self.spec_sensitivity(),
    {
        match self {
            Range::_2g => 4096,
            Range::_4g => 2048,
            Range::_8g => 1024,
            Range::_16g => 512,
        }
    }
}

/// Sensitivity is strictly decreasing as the range increases: a wider
/// full-scale range leaves fewer counts per g.
pub proof fn lemma_sensitivity_decreasing(a: Range, b: Range)
    requires
        a.spec_value() < b.spec_value(),
    ensures
        a.spec_sensitivity() > b.spec_sensitivity(),
{
}

/// Interrupt active setting for the INT pin: active high (default) or active
/// low.
#[allow(non_camel_case_types)]
#[derive(Debug, Clone, Copy)]
pub enum IntActive {
    /// Active high
    High,
    /// Active low
    Low,
}

impl IntActive {
    pub open spec fn spec_status(self) -> bool {
        match self {
            IntActive::High => false,
            IntActive::Low => true,
        }
    }

    pub fn status(self) -> (r: bool)
        ensures
            r == self.spec_status(),
    {
        match self {
            IntActive::High => false,
            IntActive::Low => true,
        }
    }
}

/// Interrupt pad setting for the INT pin: push-pull (default) or open-drain.
#[allow(non_camel_case_types)]
#[derive(Debug, Clone, Copy)]
pub enum IntPin {
    /// Push-pull
    PushPull,
    /// Open drain
    OpenDrain,
}

impl IntPin {
    pub open spec fn spec_status(self) -> bool {
        match self {
            IntPin::PushPull => false,
            IntPin::OpenDrain => true,
        }
    }

    pub fn status(self) -> (r: bool)
        ensures
            r == self.spec_status(),
    {
        match self {
            IntPin::PushPull => false,
            IntPin::OpenDrain => true,
        }
    }
}

/// Settings for various bit flags that can be Enabled (active) or Disabled
/// (inactive).
#[allow(non_camel_case_types)]
#[derive(Debug, Clone, Copy)]
pub enum Flag {
    /// Enable (bit set)
    Enable,
    /// Disable (bit cleared)
    Disable,
}

impl Flag {
    pub open spec fn spec_status(self) -> bool {
        match self {
            Flag::Disable => false,
            Flag::Enable => true,
        }
    }

    pub fn status(self) -> (r: bool)
        ensures
            r == self.spec_status(),
    {
        match self {
            Flag::Disable => false,
            Flag::Enable => true,
        }
    }
}

/// Settings for bit flags regarding activity and tap detection, which can be
/// either positive or negative.
#[allow(non_camel_case_types)]
#[derive(Debug, Clone, Copy)]
pub enum Sign {
    /// Positive (bit set)
    Positive,
    /// Negative (bit cleared)
    Negative,
}

impl Sign {
    pub open spec fn spec_status(self) -> bool {
        match self {
            Sign::Negative => false,
            Sign::Positive => true,
        }
    }

    pub fn status(self) -> (r: bool)
        ensures
            r == self.spec_status(),
    {
        match self {
            Sign::Negative => false,
            Sign::Positive => true,
        }
    }
}

/// Settings for bit flags regarding axis polarity and output swapping.
#[allow(non_camel_case_types)]
#[derive(Debug, Clone, Copy)]
pub enum Polarity {
    /// Normal (not reversed) (bit cleared)
    Normal,
    /// Reversed/Swapped (bit set)
    Reversed,
}

impl Polarity {
    pub open spec fn spec_status(self) -> bool {
        match self {
            Polarity::Normal => false,
            Polarity::Reversed => true,
        }
    }

    pub fn status(self) -> (r: bool)
        ensures
            r == self.spec_status(),
    {
        match self {
            Polarity::Normal => false,
            Polarity::Reversed => true,
        }
    }
}

/// Orientation mode of the x/y axes selection.
#[allow(non_camel_case_types)]
#[derive(Debug, Clone, Copy)]
pub enum OrientXY {
    /// Portrait upright
    PortraitUpright,
    /// Portrait upside down
    PortraitUpsideDown,
    /// Landscape left
    LandscapeLeft,
    /// Landscape right
    LandscapeRight,
}

impl OrientXY {
    /// Orientation code already shifted into bits 6:5.
    pub open spec fn spec_value(self) -> u8 {
        match self {
            OrientXY::PortraitUpright => 0b0000_0000,
            OrientXY::PortraitUpsideDown => 0b0010_0000,
            OrientXY::LandscapeLeft => 0b0100_0000,
            OrientXY::LandscapeRight => 0b0110_0000,
        }
    }

    pub fn value(self) -> (r: u8)
        ensures
            r == self.spec_value(),
    {
        match self {
            OrientXY::PortraitUpright => 0b0000_0000,
            OrientXY::PortraitUpsideDown => 0b0010_0000,
            OrientXY::LandscapeLeft => 0b0100_0000,
            OrientXY::LandscapeRight => 0b0110_0000,
        }
    }
}

/// Orientation mode of the z axis selection.
#[allow(non_camel_case_types)]
#[derive(Debug, Clone, Copy)]
pub enum OrientZ {
    /// Upward looking
    Upward,
    /// Downward looking
    Downward,
}

impl OrientZ {
    pub open spec fn spec_value(self) -> u8 {
        match self {
            OrientZ::Upward => 0b0,
            OrientZ::Downward => 0b1,
        }
    }

    pub fn value(self) -> (r: u8)
        ensures
            r == self.spec_value(),
    {
        match self {
            OrientZ::Upward => 0b0,
            OrientZ::Downward => 0b1,
        }
    }
}

/// Interrupt latching behaviour.
#[allow(non_camel_case_types)]
#[derive(Debug, Clone, Copy)]
pub enum IntLatch {
    /// Non-latched
    NonLatched,
    /// Temporary latched 250 ms
    TempLatch_250ms,
    /// Temporary latched 500 ms
    TempLatch_500ms,
    /// Temporary latched 1 s
    TempLatch_1s,
    /// Temporary latched 2 s
    TempLatch_2s,
    /// Temporary latched 4 s
    TempLatch_4s,
    /// Temporary latched 8 s
    TempLatch_8s,
    /// Latched until cleared
    Latched,
    /// Temporary latched 1 ms
    TempLatch_1ms,
    /// Temporary latched 2 ms
    TempLatch_2ms,
    /// Temporary latched 25 ms
    TempLatch_25ms,
    /// Temporary latched 50 ms
    TempLatch_50ms,
    /// Temporary latched 100 ms
    TempLatch_100ms,
}

impl IntLatch {
    /// Latch duration code, low nibble of the latch register.
    pub open spec fn spec_value(self) -> u8 {
        match self {
            IntLatch::NonLatched => 0b0000,
            IntLatch::TempLatch_250ms => 0b0001,
            IntLatch::TempLatch_500ms => 0b0010,
            IntLatch::TempLatch_1s => 0b0011,
            IntLatch::TempLatch_2s => 0b0100,
            IntLatch::TempLatch_4s => 0b0101,
            IntLatch::TempLatch_8s => 0b0110,
            IntLatch::Latched => 0b0111,
            IntLatch::TempLatch_1ms => 0b1001,
            IntLatch::TempLatch_2ms => 0b1011,
            IntLatch::TempLatch_25ms => 0b1100,
            IntLatch::TempLatch_50ms => 0b1101,
            IntLatch::TempLatch_100ms => 0b1110,
        }
    }

    pub fn value(self) -> (r: u8)
        ensures
            r == self.spec_value(),
    {
        match self {
            IntLatch::NonLatched => 0b0000,
            IntLatch::TempLatch_250ms => 0b0001,
            IntLatch::TempLatch_500ms => 0b0010,
            IntLatch::TempLatch_1s => 0b0011,
            IntLatch::TempLatch_2s => 0b0100,
            IntLatch::TempLatch_4s => 0b0101,
            IntLatch::TempLatch_8s => 0b0110,
            IntLatch::Latched => 0b0111,
            IntLatch::TempLatch_1ms => 0b1001,
            IntLatch::TempLatch_2ms => 0b1011,
            IntLatch::TempLatch_25ms => 0b1100,
            IntLatch::TempLatch_50ms => 0b1101,
            IntLatch::TempLatch_100ms => 0b1110,
        }
    }
}

/// Tap quiet duration.
#[allow(non_camel_case_types)]
#[derive(Debug, Clone, Copy)]
pub enum TapQuiet {
    /// Tap quiet duration 30 ms
    _30ms,
    /// Tap quiet duration 50 ms
    _50ms,
}

impl TapQuiet {
    /// Quiet duration code already shifted into bit 7.
    pub open spec fn spec_value(self) -> u8 {
        match self {
            TapQuiet::_30ms => 0b0000_0000,
            TapQuiet::_50ms => 0b1000_0000,
        }
    }

    pub fn value(self) -> (r: u8)
        ensures
            r == self.spec_value(),
    {
        match self {
            TapQuiet::_30ms => 0b0000_0000,
            TapQuiet::_50ms => 0b1000_0000,
        }
    }
}

/// Tap shock duration.
#[allow(non_camel_case_types)]
#[derive(Debug, Clone, Copy)]
pub enum TapShock {
    /// Tap shock duration 50 ms
    _50ms,
    /// Tap shock duration 70 ms
    _70ms,
}

impl TapShock {
    /// Shock duration code already shifted into bit 6.
    pub open spec fn spec_value(self) -> u8 {
        match self {
            TapShock::_50ms => 0b0000_0000,
            TapShock::_70ms => 0b0100_0000,
        }
    }

    pub fn value(self) -> (r: u8)
        ensures
            r == self.spec_value(),
    {
        match self {
            TapShock::_50ms => 0b0000_0000,
            TapShock::_70ms => 0b0100_0000,
        }
    }
}

/// Time window length for the second shock.
#[allow(non_camel_case_types)]
#[derive(Debug, Clone, Copy)]
pub enum TapDur {
    /// 50 ms
    _50ms,
    /// 100 ms
    _100ms,
    /// 150 ms
    _150ms,
    /// 200 ms
    _200ms,
    /// 250 ms
    _250ms,
    /// 375 ms
    _375ms,
    /// 500 ms
    _500ms,
    /// 700 ms
    _700ms,
}

impl TapDur {
    pub open spec fn spec_value(self) -> u8 {
        match self {
            TapDur::_50ms => 0b000,
            TapDur::_100ms => 0b001,
            TapDur::_150ms => 0b010,
            TapDur::_200ms => 0b011,
            TapDur::_250ms => 0b100,
            TapDur::_375ms => 0b101,
            TapDur::_500ms => 0b110,
            TapDur::_700ms => 0b111,
        }
    }

    pub fn value(self) -> (r: u8)
        ensures
            r == self.spec_value(),
    {
        match self {
            TapDur::_50ms => 0b000,
            TapDur::_100ms => 0b001,
            TapDur::_150ms => 0b010,
            TapDur::_200ms => 0b011,
            TapDur::_250ms => 0b100,
            TapDur::_375ms => 0b101,
            TapDur::_500ms => 0b110,
            TapDur::_700ms => 0b111,
        }
    }
}

/// Orientation interrupt blocking mode.
#[derive(Debug, Clone, Copy)]
pub enum OrientBlock {
    /// No blocking
    NoBlock,
    /// Z-axis blocking
    ZaxisBlock,
    /// Z-axis blocking or slope in any axis > 0.2g
    ZaxisBlockOrSlope,
}

impl OrientBlock {
    /// Blocking mode code already shifted into bits 3:2.
    pub open spec fn spec_value(self) -> u8 {
        match self {
            OrientBlock::NoBlock => 0b0000,
            OrientBlock::ZaxisBlock => 0b0100,
            OrientBlock::ZaxisBlockOrSlope => 0b1000,
        }
    }

    pub fn value(self) -> (r: u8)
        ensures
            r == self.spec_value(),
    {
        match self {
            OrientBlock::NoBlock => 0b0000,
            OrientBlock::ZaxisBlock => 0b0100,
            OrientBlock::ZaxisBlockOrSlope => 0b1000,
        }
    }
}

/// Orientation interrupt threshold setting.
#[derive(Debug, Clone, Copy)]
pub enum OrientMode {
    /// Symmetrical
    Symmetrical,
    /// High-asymmetrical
    HighAsymmetrical,
    /// Low-asymmetrical
    LowAsymmetrical,
}

impl OrientMode {
    pub open spec fn spec_value(self) -> u8 {
        match self {
            OrientMode::Symmetrical => 0b00,
            OrientMode::HighAsymmetrical => 0b01,
            OrientMode::LowAsymmetrical => 0b10,
        }
    }

    pub fn value(self) -> (r: u8)
        ensures
            r == self.spec_value(),
    {
        match self {
            OrientMode::Symmetrical => 0b00,
            OrientMode::HighAsymmetrical => 0b01,
            OrientMode::LowAsymmetrical => 0b10,
        }
    }
}

/// Freefall mode.
#[allow(non_camel_case_types)]
#[derive(Debug, Clone, Copy)]
pub enum FreefallMode {
    /// Single mode
    Single,
    /// Sum mode
    Sum,
}

impl FreefallMode {
    pub open spec fn spec_status(self) -> bool {
        match self {
            FreefallMode::Single => false,
            FreefallMode::Sum => true,
        }
    }

    pub fn status(self) -> (r: bool)
        ensures
            r == self.spec_status(),
    {
        match self {
            FreefallMode::Single => false,
            FreefallMode::Sum => true,
        }
    }
}

} // verus!
