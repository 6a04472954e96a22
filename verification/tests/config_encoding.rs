//! Configuration encoding: register bytes, field round-trips, enum codes.

use msa301::config::AccelConfig;
use msa301::{
    BandWidth, DataRate, Flag, FreefallMode, IntActive, IntLatch, IntPin, OrientBlock, OrientMode,
    OrientXY, OrientZ, Polarity, PowerMode, Range, Res, Sign, TapDur, TapQuiet, TapShock,
};

fn config(
    axes: (bool, bool, bool),
    powermode: PowerMode,
    datarate: DataRate,
    bandwidth: BandWidth,
    resolution: Res,
    range: Range,
) -> AccelConfig {
    AccelConfig {
        enable_axes: axes,
        powermode,
        datarate,
        bandwidth,
        resolution,
        range,
    }
}

#[test]
fn cfg_odr_all_axes_enabled_clears_high_bits() {
    let c = config(
        (true, true, true),
        PowerMode::Normal,
        DataRate::_1Hz,
        BandWidth::_250Hz,
        Res::_14bit,
        Range::_4g,
    );
    assert_eq!(c.cfg_odr() & 0b1110_0000, 0);
    assert_eq!(c.cfg_odr(), 0b0000_0000);
}

#[test]
fn cfg_odr_all_axes_disabled_keeps_high_bits() {
    let c = config(
        (false, false, false),
        PowerMode::Normal,
        DataRate::_1Hz,
        BandWidth::_250Hz,
        Res::_14bit,
        Range::_4g,
    );
    assert_eq!(c.cfg_odr(), 0b1110_0000);
    let c2 = config(
        (false, false, false),
        PowerMode::Normal,
        DataRate::_500Hz,
        BandWidth::_250Hz,
        Res::_14bit,
        Range::_4g,
    );
    assert_eq!(c2.cfg_odr(), 0b1110_1001);
}

#[test]
fn cfg_odr_single_axis_bits() {
    let cx = config(
        (true, false, false),
        PowerMode::Normal,
        DataRate::_1Hz,
        BandWidth::_250Hz,
        Res::_14bit,
        Range::_4g,
    );
    assert_eq!(cx.cfg_odr(), 0b0110_0000);
    let cy = config(
        (false, true, false),
        PowerMode::Normal,
        DataRate::_1Hz,
        BandWidth::_250Hz,
        Res::_14bit,
        Range::_4g,
    );
    assert_eq!(cy.cfg_odr(), 0b1010_0000);
    let cz = config(
        (false, false, true),
        PowerMode::Normal,
        DataRate::_1Hz,
        BandWidth::_250Hz,
        Res::_14bit,
        Range::_4g,
    );
    assert_eq!(cz.cfg_odr(), 0b1100_0000);
}

#[test]
fn sensitivity_exact_values() {
    assert_eq!(Range::_2g.sensitivity(), 4096);
    assert_eq!(Range::_4g.sensitivity(), 2048);
    assert_eq!(Range::_8g.sensitivity(), 1024);
    assert_eq!(Range::_16g.sensitivity(), 512);
}

#[test]
fn sensitivity_strictly_decreasing() {
    assert!(Range::_2g.sensitivity() > Range::_4g.sensitivity());
    assert!(Range::_4g.sensitivity() > Range::_8g.sensitivity());
    assert!(Range::_8g.sensitivity() > Range::_16g.sensitivity());
}

#[test]
fn default_config_fields() {
    let c = AccelConfig::default();
    assert_eq!(c.enable_axes, (true, true, true));
    assert!(matches!(c.powermode, PowerMode::Normal));
    assert!(matches!(c.datarate, DataRate::_500Hz));
    assert!(matches!(c.bandwidth, BandWidth::_250Hz));
    assert!(matches!(c.resolution, Res::_14bit));
    assert!(matches!(c.range, Range::_4g));
}

#[test]
fn default_config_register_bytes() {
    let c = AccelConfig::default();
    assert_eq!(c.cfg_odr(), 0b0000_1001);
    assert_eq!(
        c.pwr_bw(),
        (BandWidth::_250Hz.value()) | (PowerMode::Normal.value())
    );
    assert_eq!(c.pwr_bw(), 0b0001_0010);
    assert_eq!(
        c.res_range(),
        (Res::_14bit.value()) | (Range::_4g.value())
    );
    assert_eq!(c.res_range(), 0b0000_0001);
}

#[test]
fn roundtrip_default_config_fields() {
    let c = AccelConfig::default();
    assert_eq!(c.cfg_odr() & 0b0000_1111, DataRate::_500Hz.value());
    assert_eq!(c.pwr_bw() & 0b0001_1110, BandWidth::_250Hz.value());
    assert_eq!(c.pwr_bw() & 0b1100_0000, PowerMode::Normal.value());
    assert_eq!(c.res_range() & 0b0000_1100, Res::_14bit.value());
    assert_eq!(c.res_range() & 0b0000_0011, Range::_4g.value());
}

#[test]
fn roundtrip_mixed_config_fields() {
    let c = config(
        (true, false, true),
        PowerMode::LowPower,
        DataRate::_7_81Hz,
        BandWidth::_500Hz,
        Res::_8bit,
        Range::_16g,
    );
    assert_eq!(c.cfg_odr() & 0b0000_1111, DataRate::_7_81Hz.value());
    assert_eq!(c.pwr_bw() & 0b0001_1110, BandWidth::_500Hz.value());
    assert_eq!(c.pwr_bw() & 0b1100_0000, PowerMode::LowPower.value());
    assert_eq!(c.res_range() & 0b0000_1100, Res::_8bit.value());
    assert_eq!(c.res_range() & 0b0000_0011, Range::_16g.value());
}

#[test]
fn datarate_codes() {
    assert_eq!(DataRate::_1Hz.value(), 0b0000);
    assert_eq!(DataRate::_1_95Hz.value(), 0b0001);
    assert_eq!(DataRate::_3_90Hz.value(), 0b0010);
    assert_eq!(DataRate::_7_81Hz.value(), 0b0011);
    assert_eq!(DataRate::_15_63Hz.value(), 0b0100);
    assert_eq!(DataRate::_31_25Hz.value(), 0b0101);
    assert_eq!(DataRate::_62_5Hz.value(), 0b0110);
    assert_eq!(DataRate::_125Hz.value(), 0b0111);
    assert_eq!(DataRate::_250Hz.value(), 0b1000);
    assert_eq!(DataRate::_500Hz.value(), 0b1001);
    assert_eq!(DataRate::_1000Hz.value(), 0b1010);
}

#[test]
fn bandwidth_codes_are_prefixed_shifted() {
    assert_eq!(BandWidth::_1_95Hz.value(), 0b0010 << 1);
    assert_eq!(BandWidth::_3_90Hz.value(), 0b0011 << 1);
    assert_eq!(BandWidth::_7_81Hz.value(), 0b0100 << 1);
    assert_eq!(BandWidth::_15_63Hz.value(), 0b0101 << 1);
    assert_eq!(BandWidth::_31_25Hz.value(), 0b0110 << 1);
    assert_eq!(BandWidth::_62_5Hz.value(), 0b0111 << 1);
    assert_eq!(BandWidth::_125Hz.value(), 0b1000 << 1);
    assert_eq!(BandWidth::_250Hz.value(), 0b1001 << 1);
    assert_eq!(BandWidth::_500Hz.value(), 0b1010 << 1);
}

#[test]
fn powermode_codes_sit_in_top_bits() {
    assert_eq!(PowerMode::Normal.value(), 0b00 << 6);
    assert_eq!(PowerMode::LowPower.value(), 0b01 << 6);
    assert_eq!(PowerMode::Suspend.value(), 0b10 << 6);
}

#[test]
fn resolution_codes_sit_in_bits_3_2() {
    assert_eq!(Res::_14bit.value(), 0b00 << 2);
    assert_eq!(Res::_12bit.value(), 0b01 << 2);
    assert_eq!(Res::_10bit.value(), 0b10 << 2);
    assert_eq!(Res::_8bit.value(), 0b11 << 2);
}

#[test]
fn range_codes() {
    assert_eq!(Range::_2g.value(), 0b00);
    assert_eq!(Range::_4g.value(), 0b01);
    assert_eq!(Range::_8g.value(), 0b10);
    assert_eq!(Range::_16g.value(), 0b11);
}

#[test]
fn orient_codes() {
    assert_eq!(OrientXY::PortraitUpright.value(), 0b00 << 5);
    assert_eq!(OrientXY::PortraitUpsideDown.value(), 0b01 << 5);
    assert_eq!(OrientXY::LandscapeLeft.value(), 0b10 << 5);
    assert_eq!(OrientXY::LandscapeRight.value(), 0b11 << 5);
    assert_eq!(OrientZ::Upward.value(), 0b0);
    assert_eq!(OrientZ::Downward.value(), 0b1);
    assert_eq!(OrientBlock::NoBlock.value(), 0b00 << 2);
    assert_eq!(OrientBlock::ZaxisBlock.value(), 0b01 << 2);
    assert_eq!(OrientBlock::ZaxisBlockOrSlope.value(), 0b10 << 2);
    assert_eq!(OrientMode::Symmetrical.value(), 0b00);
    assert_eq!(OrientMode::HighAsymmetrical.value(), 0b01);
    assert_eq!(OrientMode::LowAsymmetrical.value(), 0b10);
}

#[test]
fn latch_codes() {
    assert_eq!(IntLatch::NonLatched.value(), 0b0000);
    assert_eq!(IntLatch::TempLatch_250ms.value(), 0b0001);
    assert_eq!(IntLatch::TempLatch_500ms.value(), 0b0010);
    assert_eq!(IntLatch::TempLatch_1s.value(), 0b0011);
    assert_eq!(IntLatch::TempLatch_2s.value(), 0b0100);
    assert_eq!(IntLatch::TempLatch_4s.value(), 0b0101);
    assert_eq!(IntLatch::TempLatch_8s.value(), 0b0110);
    assert_eq!(IntLatch::Latched.value(), 0b0111);
    assert_eq!(IntLatch::TempLatch_1ms.value(), 0b1001);
    assert_eq!(IntLatch::TempLatch_2ms.value(), 0b1011);
    assert_eq!(IntLatch::TempLatch_25ms.value(), 0b1100);
    assert_eq!(IntLatch::TempLatch_50ms.value(), 0b1101);
    assert_eq!(IntLatch::TempLatch_100ms.value(), 0b1110);
}

#[test]
fn tap_codes() {
    assert_eq!(TapQuiet::_30ms.value(), 0b0 << 7);
    assert_eq!(TapQuiet::_50ms.value(), 0b1 << 7);
    assert_eq!(TapShock::_50ms.value(), 0b0 << 6);
    assert_eq!(TapShock::_70ms.value(), 0b1 << 6);
    assert_eq!(TapDur::_50ms.value(), 0b000);
    assert_eq!(TapDur::_100ms.value(), 0b001);
    assert_eq!(TapDur::_150ms.value(), 0b010);
    assert_eq!(TapDur::_200ms.value(), 0b011);
    assert_eq!(TapDur::_250ms.value(), 0b100);
    assert_eq!(TapDur::_375ms.value(), 0b101);
    assert_eq!(TapDur::_500ms.value(), 0b110);
    assert_eq!(TapDur::_700ms.value(), 0b111);
}

#[test]
fn status_flags() {
    assert!(!IntActive::High.status());
    assert!(IntActive::Low.status());
    assert!(!IntPin::PushPull.status());
    assert!(IntPin::OpenDrain.status());
    assert!(Flag::Enable.status());
    assert!(!Flag::Disable.status());
    assert!(Sign::Positive.status());
    assert!(!Sign::Negative.status());
    assert!(!Polarity::Normal.status());
    assert!(Polarity::Reversed.status());
    assert!(!FreefallMode::Single.status());
    assert!(FreefallMode::Sum.status());
}
