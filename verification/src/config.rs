//! The configuration snapshot and its encoding into the three configuration
//! registers, plus the per-field setters of the driver.

use vstd::prelude::*;

use crate::bus::Bus;
use crate::register::{Bitmasks, Registers};
use crate::{BandWidth, DataRate, Error, MSA301, PowerMode, Range, Res};

verus! {

/// Accelerometer settings to configure the sensor.
#[derive(Debug, Clone, Copy)]
pub struct AccelConfig {
    /// Axes X,Y,Z enabled
    pub enable_axes: (bool, bool, bool),
    /// Set power mode
    pub powermode: PowerMode,
    /// Set output datarate
    pub datarate: DataRate,
    /// Set bandwidth (only meaningful in low-power mode)
    pub bandwidth: BandWidth,
    /// Set resolution in bits
    pub resolution: Res,
    /// Set full scale range
    pub range: Range,
}

impl AccelConfig {
    /// The default configuration: all axes enabled, normal power mode,
    /// 500 Hz data rate, 250 Hz bandwidth, 14-bit resolution, +/-4g range.
    pub open spec fn spec_default() -> AccelConfig {
        AccelConfig {
            enable_axes: (true, true, true),
            powermode: PowerMode::Normal,
            datarate: DataRate::_500Hz,
            bandwidth: BandWidth::_250Hz,
            resolution: Res::_14bit,
            range: Range::_4g,
        }
    }

    /// Byte for the resolution/range register: range code in bits 1:0 ORed
    /// with the resolution code in bits 3:2.
    pub open spec fn spec_res_range(self) -> u8 {
        self.range.spec_value() | self.resolution.spec_value()
    }

    /// The axis part of the axis/rate register: bits 7,6,5 all set mean all
    /// axes disabled (the hardware's inverted-enable convention); the bit of
    /// each enabled axis is cleared.
    pub open spec fn spec_axis_bits(self) -> u8 {
        let a0 = 0b1110_0000u8;
        let a1 = if self.enable_axes.0 {
            a0 & !0b1000_0000u8
        } else {
            a0
        };
        let a2 = if self.enable_axes.1 {
            a1 & !0b0100_0000u8
        } else {
            a1
        };
        if self.enable_axes.2 {
            a2 & !0b0010_0000u8
        } else {
            a2
        }
    }

    /// Byte for the axis/rate register: the axis-disable bits ORed with the
    /// data rate code in the low nibble.
    pub open spec fn spec_cfg_odr(self) -> u8 {
        self.spec_axis_bits() | self.datarate.spec_value()
    }

    /// Byte for the power/bandwidth register: the bandwidth code (bits 4:1)
    /// ORed with the power mode code (bits 7:6).
    pub open spec fn spec_pwr_bw(self) -> u8 {
        self.bandwidth.spec_value() | self.powermode.spec_value()
    }

    /// Encode the resolution/range register byte.
    pub fn res_range(&self) -> (r: u8)
        ensures
            r == self.spec_res_range(),
    {
        let mut data: u8 = 0;
        data |= self.range.value();
        data |= self.resolution.value();
        proof {
            let v1 = self.range.spec_value();
            let v2 = self.resolution.spec_value();
            assert((0u8 | v1) | v2 == v1 | v2) by (bit_vector);
        }
        data
    }

    /// Encode the axis/rate register byte.
    pub fn cfg_odr(&self) -> (r: u8)
        ensures
            r == self.spec_cfg_odr(),
    {
        let mut data: u8 = 0b1110_0000;
        let (x, y, z) = self.enable_axes;
        if x {
            data = data & !0b1000_0000;  // clear bit 7
        }
        if y {
            data = data & !0b0100_0000;  // clear bit 6
        }
        if z {
            data = data & !0b0010_0000;  // clear bit 5
        }
        data |= self.datarate.value();
        data
    }

    /// Encode the power/bandwidth register byte.
    pub fn pwr_bw(&self) -> (r: u8)
        ensures
            r == self.spec_pwr_bw(),
    {
        let mut data: u8 = 0;
        data |= self.bandwidth.value();
        data |= self.powermode.value();
        proof {
            let v1 = self.bandwidth.spec_value();
            let v2 = self.powermode.spec_value();
            assert((0u8 | v1) | v2 == v1 | v2) by (bit_vector);
        }
        data
    }
}

impl Default for AccelConfig {
    /// The documented default configuration.
    fn default() -> (r: Self)
        ensures
            r == AccelConfig::spec_default(),
    {
        AccelConfig {
            enable_axes: (true, true, true),
            powermode: PowerMode::Normal,
            datarate: DataRate::_500Hz,
            bandwidth: BandWidth::_250Hz,
            resolution: Res::_14bit,
            range: Range::_4g,
        }
    }
}

/// The data rate code sits in the low nibble.
pub proof fn lemma_datarate_nibble(d: DataRate)
    ensures
        d.spec_value() < 16,
        DataRate::spec_from_bits(d.spec_value()) == Some(d),
{
}

/// The bandwidth code sits inside its mask and decodes back.
pub proof fn lemma_bandwidth_field(b: BandWidth)
    ensures
        b.spec_value() & !Bitmasks::BW_MASK == 0,
        BandWidth::spec_from_bits(b.spec_value()) == Some(b),
{
    let v = b.spec_value();
    assert(v & !0b0001_1110u8 == 0) by (bit_vector)
        requires
            v == 0b0000_0100u8 || v == 0b0000_0110u8 || v == 0b0000_1000u8 || v == 0b0000_1010u8
                || v == 0b0000_1100u8 || v == 0b0000_1110u8 || v == 0b0001_0000u8
                || v == 0b0001_0010u8 || v == 0b0001_0100u8,
    ;
}

/// The power mode code sits inside its mask and decodes back.
pub proof fn lemma_powermode_field(p: PowerMode)
    ensures
        p.spec_value() & !Bitmasks::PWR_MASK == 0,
        PowerMode::spec_from_bits(p.spec_value()) == Some(p),
{
    let v = p.spec_value();
    assert(v & !0b1100_0000u8 == 0) by (bit_vector)
        requires
            v == 0b0000_0000u8 || v == 0b0100_0000u8 || v == 0b1000_0000u8,
    ;
}

/// The resolution code sits inside its mask and decodes back.
pub proof fn lemma_resolution_field(s: Res)
    ensures
        s.spec_value() & !Bitmasks::RESOLUTION == 0,
        Res::spec_from_bits(s.spec_value()) == Some(s),
{
    let v = s.spec_value();
    assert(v & !0b0000_1100u8 == 0) by (bit_vector)
        requires
            v == 0b0000u8 || v == 0b0100u8 || v == 0b1000u8 || v == 0b1100u8,
    ;
}

/// The range code sits inside its mask and decodes back.
pub proof fn lemma_range_field(g: Range)
    ensures
        g.spec_value() & !Bitmasks::FS == 0,
        Range::spec_from_bits(g.spec_value()) == Some(g),
{
    let v = g.spec_value();
    assert(v & !0b0000_0011u8 == 0) by (bit_vector)
        requires
            v == 0b00u8 || v == 0b01u8 || v == 0b10u8 || v == 0b11u8,
    ;
}

/// The axis-disable bits never touch the low five bits.
pub proof fn lemma_axis_bits_high(c: AccelConfig)
    ensures
        c.spec_axis_bits() & 0b0001_1111u8 == 0,
{
    assert(0b1110_0000u8 & 0b0001_1111u8 == 0) by (bit_vector);
    assert(forall|v: u8, w: u8|
        v & 0b0001_1111u8 == 0 ==> #[trigger] (v & w) & 0b0001_1111u8 == 0) by (bit_vector);
}

/// With all axes enabled, the axis/rate byte has bits 7,6,5 clear; with all
/// axes disabled they stay set, and the byte is exactly 0b1110_0000 when the
/// data rate code is zero.
pub proof fn lemma_cfg_odr_axis_bits(c: AccelConfig)
    ensures
        c.enable_axes == (true, true, true) ==> c.spec_cfg_odr() & 0b1110_0000u8 == 0,
        c.enable_axes == (false, false, false) ==> c.spec_cfg_odr() & 0b1110_0000u8
            == 0b1110_0000u8,
        c.enable_axes == (false, false, false) && c.datarate.spec_value() == 0
            ==> c.spec_cfg_odr() == 0b1110_0000u8,
{
    let ax = c.spec_axis_bits();
    let d = c.datarate.spec_value();
    lemma_datarate_nibble(c.datarate);
    lemma_axis_bits_high(c);
    if c.enable_axes == (true, true, true) {
        assert(((0b1110_0000u8 & !0b1000_0000u8) & !0b0100_0000u8) & !0b0010_0000u8 == 0)
            by (bit_vector);
        assert((0u8 | d) & 0b1110_0000u8 == 0) by (bit_vector)
            requires
                d < 16,
        ;
    }
    if c.enable_axes == (false, false, false) {
        assert((0b1110_0000u8 | d) & 0b1110_0000u8 == 0b1110_0000u8) by (bit_vector)
            requires
                d < 16,
        ;
        assert(0b1110_0000u8 | 0u8 == 0b1110_0000u8) by (bit_vector);
    }
}

/// Round-trip: encoding a configuration into its register bytes and decoding
/// each field back through that field's own mask yields the original
/// enumerated setting, for every enumerated setting.
pub proof fn lemma_config_roundtrip(c: AccelConfig)
    ensures
        DataRate::spec_from_bits(c.spec_cfg_odr() & Bitmasks::ODR_MASK) == Some(c.datarate),
        BandWidth::spec_from_bits(c.spec_pwr_bw() & Bitmasks::BW_MASK) == Some(c.bandwidth),
        PowerMode::spec_from_bits(c.spec_pwr_bw() & Bitmasks::PWR_MASK) == Some(c.powermode),
        Res::spec_from_bits(c.spec_res_range() & Bitmasks::RESOLUTION) == Some(c.resolution),
        Range::spec_from_bits(c.spec_res_range() & Bitmasks::FS) == Some(c.range),
{
    let ax = c.spec_axis_bits();
    let d = c.datarate.spec_value();
    lemma_axis_bits_high(c);
    lemma_datarate_nibble(c.datarate);
    assert((ax | d) & 0b0000_1111u8 == d) by (bit_vector)
        requires
            ax & 0b0001_1111u8 == 0 && d < 16,
    ;
    let bw = c.bandwidth.spec_value();
    let pm = c.powermode.spec_value();
    lemma_bandwidth_field(c.bandwidth);
    lemma_powermode_field(c.powermode);
    assert((bw | pm) & 0b0001_1110u8 == bw) by (bit_vector)
        requires
            bw & !0b0001_1110u8 == 0 && pm & !0b1100_0000u8 == 0,
    ;
    assert((bw | pm) & 0b1100_0000u8 == pm) by (bit_vector)
        requires
            bw & !0b0001_1110u8 == 0 && pm & !0b1100_0000u8 == 0,
    ;
    let rg = c.range.spec_value();
    let rs = c.resolution.spec_value();
    lemma_range_field(c.range);
    lemma_resolution_field(c.resolution);
    assert((rg | rs) & 0b0000_1100u8 == rs) by (bit_vector)
        requires
            rg & !0b0000_0011u8 == 0 && rs & !0b0000_1100u8 == 0,
    ;
    assert((rg | rs) & 0b0000_0011u8 == rg) by (bit_vector)
        requires
            rg & !0b0000_0011u8 == 0 && rs & !0b0000_1100u8 == 0,
    ;
}

impl<B: Bus> MSA301<B> {
    /// Set output data rate: read-modify-write of the axis/rate register's
    /// data rate field; the cached configuration is updated on success.
    pub fn set_datarate(&mut self, odr: DataRate) -> (r: Result<(), Error<B::BusError>>)
        requires
            old(self).wf(),
        ensures
            final(self).wf(),
            final(self).spec_infallible() == old(self).spec_infallible(),
            old(self).spec_infallible() ==> r is Ok,
            r is Ok ==> ({
                let a = Registers::CFG_ODR.spec_addr();
                let v1 = (old(self).spec_regs()[a] & !Bitmasks::ODR_MASK) | odr.spec_value();
                &&& final(self).spec_regs() == old(self).spec_regs().insert(a, v1)
                &&& final(self).spec_writes() == old(self).spec_writes().push((a, v1))
                &&& final(self).spec_config() == (AccelConfig {
                    datarate: odr,
                    ..old(self).spec_config()
                })
            }),
            r is Err ==> final(self).spec_config() == old(self).spec_config(),
            r is Err ==> final(self).spec_writes() == old(self).spec_writes(),
            r is Err ==> r->Err_0 is I2C,
    {
        let reg = match self.read_register(Registers::CFG_ODR) {
            Ok(d) => d,
            Err(e) => {
                return Err(e);
            },
        };
        let data = (reg & !Bitmasks::ODR_MASK) | odr.value();
        match self.write_register(Registers::CFG_ODR, data) {
            Ok(()) => {
                self.config.datarate = odr;
                Ok(())
            },
            Err(e) => Err(e),
        }
    }

    /// Set bandwidth: read-modify-write of the power/bandwidth register's
    /// bandwidth field; the cached configuration is updated on success.
    pub fn set_bandwidth(&mut self, bandwidth: BandWidth) -> (r: Result<(), Error<B::BusError>>)
        requires
            old(self).wf(),
        ensures
            final(self).wf(),
            final(self).spec_infallible() == old(self).spec_infallible(),
            old(self).spec_infallible() ==> r is Ok,
            r is Ok ==> ({
                let a = Registers::PWR_BW.spec_addr();
                let v1 = (old(self).spec_regs()[a] & !Bitmasks::BW_MASK) | bandwidth.spec_value();
                &&& final(self).spec_regs() == old(self).spec_regs().insert(a, v1)
                &&& final(self).spec_writes() == old(self).spec_writes().push((a, v1))
                &&& final(self).spec_config() == (AccelConfig {
                    bandwidth: bandwidth,
                    ..old(self).spec_config()
                })
            }),
            r is Err ==> final(self).spec_config() == old(self).spec_config(),
            r is Err ==> final(self).spec_writes() == old(self).spec_writes(),
            r is Err ==> r->Err_0 is I2C,
    {
        let reg = match self.read_register(Registers::PWR_BW) {
            Ok(d) => d,
            Err(e) => {
                return Err(e);
            },
        };
        let data = (reg & !Bitmasks::BW_MASK) | bandwidth.value();
        match self.write_register(Registers::PWR_BW, data) {
            Ok(()) => {
                self.config.bandwidth = bandwidth;
                Ok(())
            },
            Err(e) => Err(e),
        }
    }

    /// Set power mode: read-modify-write of the power/bandwidth register's
    /// power field; the cached configuration is updated on success.
    pub fn set_power_mode(&mut self, powermode: PowerMode) -> (r: Result<(), Error<B::BusError>>)
        requires
            old(self).wf(),
        ensures
            final(self).wf(),
            final(self).spec_infallible() == old(self).spec_infallible(),
            old(self).spec_infallible() ==> r is Ok,
            r is Ok ==> ({
                let a = Registers::PWR_BW.spec_addr();
                let v1 = (old(self).spec_regs()[a] & !Bitmasks::PWR_MASK) | powermode.spec_value();
                &&& final(self).spec_regs() == old(self).spec_regs().insert(a, v1)
                &&& final(self).spec_writes() == old(self).spec_writes().push((a, v1))
                &&& final(self).spec_config() == (AccelConfig {
                    powermode: powermode,
                    ..old(self).spec_config()
                })
            }),
            r is Err ==> final(self).spec_config() == old(self).spec_config(),
            r is Err ==> final(self).spec_writes() == old(self).spec_writes(),
            r is Err ==> r->Err_0 is I2C,
    {
        let reg = match self.read_register(Registers::PWR_BW) {
            Ok(d) => d,
            Err(e) => {
                return Err(e);
            },
        };
        let data = (reg & !Bitmasks::PWR_MASK) | powermode.value();
        match self.write_register(Registers::PWR_BW, data) {
            Ok(()) => {
                self.config.powermode = powermode;
                Ok(())
            },
            Err(e) => Err(e),
        }
    }

    /// Set resolution in bits: read-modify-write of the resolution/range
    /// register's resolution field; the cached configuration is updated on
    /// success.
    pub fn set_resolution(&mut self, resolution: Res) -> (r: Result<(), Error<B::BusError>>)
        requires
            old(self).wf(),
        ensures
            final(self).wf(),
            final(self).spec_infallible() == old(self).spec_infallible(),
            old(self).spec_infallible() ==> r is Ok,
            r is Ok ==> ({
                let a = Registers::RES_RANGE.spec_addr();
                let v1 = (old(self).spec_regs()[a] & !Bitmasks::RESOLUTION)
                    | resolution.spec_value();
                &&& final(self).spec_regs() == old(self).spec_regs().insert(a, v1)
                &&& final(self).spec_writes() == old(self).spec_writes().push((a, v1))
                &&& final(self).spec_config() == (AccelConfig {
                    resolution: resolution,
                    ..old(self).spec_config()
                })
            }),
            r is Err ==> final(self).spec_config() == old(self).spec_config(),
            r is Err ==> final(self).spec_writes() == old(self).spec_writes(),
            r is Err ==> r->Err_0 is I2C,
    {
        let reg = match self.read_register(Registers::RES_RANGE) {
            Ok(d) => d,
            Err(e) => {
                return Err(e);
            },
        };
        let data = (reg & !Bitmasks::RESOLUTION) | resolution.value();
        match self.write_register(Registers::RES_RANGE, data) {
            Ok(()) => {
                self.config.resolution = resolution;
                Ok(())
            },
            Err(e) => Err(e),
        }
    }

    /// Set acceleration range (full scale): read-modify-write of the
    /// resolution/range register's range field; the cached configuration,
    /// which sample scaling reads, is updated on success.
    pub fn set_range(&mut self, range: Range) -> (r: Result<(), Error<B::BusError>>)
        requires
            old(self).wf(),
        ensures
            final(self).wf(),
            final(self).spec_infallible() == old(self).spec_infallible(),
            old(self).spec_infallible() ==> r is Ok,
            r is Ok ==> ({
                let a = Registers::RES_RANGE.spec_addr();
                let v1 = (old(self).spec_regs()[a] & !Bitmasks::FS) | range.spec_value();
                &&& final(self).spec_regs() == old(self).spec_regs().insert(a, v1)
                &&& final(self).spec_writes() == old(self).spec_writes().push((a, v1))
                &&& final(self).spec_config() == (AccelConfig {
                    range: range,
                    ..old(self).spec_config()
                })
            }),
            r is Err ==> final(self).spec_config() == old(self).spec_config(),
            r is Err ==> final(self).spec_writes() == old(self).spec_writes(),
            r is Err ==> r->Err_0 is I2C,
    {
        let reg = match self.read_register(Registers::RES_RANGE) {
            Ok(d) => d,
            Err(e) => {
                return Err(e);
            },
        };
        let data = (reg & !Bitmasks::FS) | range.value();
        match self.write_register(Registers::RES_RANGE, data) {
            Ok(()) => {
                self.config.range = range;
                Ok(())
            },
            Err(e) => Err(e),
        }
    }
}

} // verus!
