//! Sample decoding: two's-complement reconstruction, the arithmetic right
//! shift, scaling by sensitivity, and the burst read.

use msa301::bus::MockBus;
use msa301::config::AccelConfig;
use msa301::interface::i2c::{I2cAddress, I2cInterface};
use msa301::sensor::decode_axis;
use msa301::{Range, MSA301};

#[test]
fn decode_negative_saturation() {
    // 0xFFFF is -1 as a 16-bit word; the arithmetic shift keeps it at -1.
    assert_eq!(decode_axis(0xFF, 0xFF), -1);
}

#[test]
fn decode_one_g_at_2g_range() {
    // high byte 0x40, low 0x00: word 0x4000 = 16384, shifted right by 2 is
    // 4096; at the 2g range's sensitivity of 4096 LSB/g this is exactly 1 g.
    let counts = decode_axis(0x00, 0x40);
    assert_eq!(counts, 4096);
    let g = counts as f32 / Range::_2g.sensitivity() as f32;
    assert_eq!(g, 1.0);
}

#[test]
fn decode_sign_preserving_shift() {
    // -4 (0xFFFC) shifted arithmetically right by 2 is -1.
    assert_eq!(decode_axis(0xFC, 0xFF), -1);
    // -5 (0xFFFB) rounds towards minus infinity: -2.
    assert_eq!(decode_axis(0xFB, 0xFF), -2);
    // largest negative word.
    assert_eq!(decode_axis(0x00, 0x80), -8192);
    // largest positive word.
    assert_eq!(decode_axis(0xFF, 0x7F), 8191);
    // small positive values truncate downwards.
    assert_eq!(decode_axis(0x07, 0x00), 1);
}

#[test]
fn read_accel_raw_bursts_six_bytes() {
    let mut mock = MockBus::new();
    let sample = [0x11, 0x22, 0x33, 0x44, 0x55, 0x66];
    for (i, b) in sample.iter().enumerate() {
        mock.set_reg(0x02 + i as u8, *b);
    }
    let mut drv = MSA301::new(mock, AccelConfig::default());
    assert_eq!(drv.read_accel_raw().unwrap(), sample);
    let bus = drv.destroy();
    assert_eq!(bus.write_count(), 0);
}

#[test]
fn read_accel_counts_decodes_three_axes() {
    let mut mock = MockBus::new();
    // x: 0x4000 -> 4096, y: 0xFFFF -> -1, z: 0x0040 -> 16
    mock.set_reg(0x02, 0x00);
    mock.set_reg(0x03, 0x40);
    mock.set_reg(0x04, 0xFF);
    mock.set_reg(0x05, 0xFF);
    mock.set_reg(0x06, 0x40);
    mock.set_reg(0x07, 0x00);
    let mut drv = MSA301::new(mock, AccelConfig::default());
    let (x, y, z) = drv.read_accel_counts().unwrap();
    assert_eq!(x, 4096);
    assert_eq!(y, -1);
    assert_eq!(z, 16);
}

#[test]
fn scaled_sample_uses_cached_range() {
    let mut mock = MockBus::new();
    mock.set_reg(0x03, 0x40);
    let mut drv = MSA301::new(mock, AccelConfig::default());
    drv.set_range(Range::_2g).unwrap();
    let (x, _, _) = drv.read_accel_counts().unwrap();
    let sens = drv.current_config().range.sensitivity();
    assert_eq!(sens, 4096);
    assert_eq!(x as f32 / sens as f32, 1.0);
}

#[test]
fn i2c_interface_address() {
    assert_eq!(I2cAddress::Address.addr(), 0b0010_0110);
    let _iface = I2cInterface::init((), I2cAddress::Address);
}
