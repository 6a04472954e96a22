//! Driver operations against the in-memory bus: initialization, setters,
//! interrupts, error propagation, and write-avoidance of read-modify-write.

use msa301::bus::MockBus;
use msa301::config::AccelConfig;
use msa301::register::Registers;
use msa301::{BandWidth, DataRate, Error, Flag, IntActive, IntLatch, IntPin, PowerMode, Range, Res, MSA301};

const INT_SET0: u8 = 0x16;
const INT_SET1: u8 = 0x17;

#[test]
fn new_does_not_touch_the_bus() {
    let drv = MSA301::new(MockBus::new(), AccelConfig::default());
    let bus = drv.destroy();
    assert_eq!(bus.write_count(), 0);
}

#[test]
fn destroy_returns_the_bus() {
    let mut mock = MockBus::new();
    mock.set_reg(0x05, 7);
    let drv = MSA301::new(mock, AccelConfig::default());
    let bus = drv.destroy();
    assert_eq!(bus.get_reg(0x05), 7);
}

#[test]
fn init_sensor_writes_three_registers_in_order() {
    let mut drv = MSA301::new(MockBus::new(), AccelConfig::default());
    drv.init_sensor(AccelConfig::default()).unwrap();
    let bus = drv.destroy();
    assert_eq!(bus.write_count(), 3);
    assert_eq!(bus.nth_write(0), (0x10, 0b0000_1001));
    assert_eq!(bus.nth_write(1), (0x11, 0b0001_0010));
    assert_eq!(bus.nth_write(2), (0x0F, 0b0000_0001));
    assert_eq!(bus.get_reg(0x10), 0b0000_1001);
    assert_eq!(bus.get_reg(0x11), 0b0001_0010);
    assert_eq!(bus.get_reg(0x0F), 0b0000_0001);
}

#[test]
fn device_id_reads_part_id_register() {
    let mut mock = MockBus::new();
    mock.set_reg(0x01, 19);
    let mut drv = MSA301::new(mock, AccelConfig::default());
    assert_eq!(drv.get_device_id().unwrap(), 19);
}

#[test]
fn read_register_reads_back() {
    let mut mock = MockBus::new();
    mock.set_reg(0x0F, 0xAB);
    let mut drv = MSA301::new(mock, AccelConfig::default());
    assert_eq!(drv.read_register(Registers::RES_RANGE).unwrap(), 0xAB);
}

#[test]
fn orient_int_sets_bit_and_reads_back() {
    let mut drv = MSA301::new(MockBus::new(), AccelConfig::default());
    drv.orient_int(Flag::Enable).unwrap();
    assert_eq!(drv.read_register(Registers::INT_SET0).unwrap(), 0b0100_0000);
    let bus = drv.destroy();
    assert_eq!(bus.write_count(), 1);
    assert_eq!(bus.nth_write(0), (INT_SET0, 0b0100_0000));
}

#[test]
fn orient_int_skips_write_when_bit_already_set() {
    let mut mock = MockBus::new();
    mock.set_reg(INT_SET0, 0b0100_0000);
    let mut drv = MSA301::new(mock, AccelConfig::default());
    drv.orient_int(Flag::Enable).unwrap();
    let bus = drv.destroy();
    assert_eq!(bus.write_count(), 0);
    assert_eq!(bus.get_reg(INT_SET0), 0b0100_0000);
}

#[test]
fn set_bits_twice_issues_exactly_one_write() {
    let mut drv = MSA301::new(MockBus::new(), AccelConfig::default());
    drv.orient_int(Flag::Enable).unwrap();
    drv.orient_int(Flag::Enable).unwrap();
    let bus = drv.destroy();
    assert_eq!(bus.write_count(), 1);
}

#[test]
fn clear_bits_twice_issues_exactly_one_write() {
    let mut mock = MockBus::new();
    mock.set_reg(INT_SET0, 0xFF);
    let mut drv = MSA301::new(mock, AccelConfig::default());
    drv.orient_int(Flag::Disable).unwrap();
    drv.orient_int(Flag::Disable).unwrap();
    let bus = drv.destroy();
    assert_eq!(bus.write_count(), 1);
    assert_eq!(bus.get_reg(INT_SET0), 0b1011_1111);
}

#[test]
fn interrupt_enables_use_their_masks() {
    let mut drv = MSA301::new(MockBus::new(), AccelConfig::default());
    drv.single_tap_int(Flag::Enable).unwrap();
    drv.double_tap_int(Flag::Enable).unwrap();
    drv.active_xaxis_int(Flag::Enable).unwrap();
    drv.active_yaxis_int(Flag::Enable).unwrap();
    drv.active_zaxis_int(Flag::Enable).unwrap();
    drv.new_data_int(Flag::Enable).unwrap();
    drv.freefall_int(Flag::Enable).unwrap();
    let bus = drv.destroy();
    assert_eq!(bus.get_reg(INT_SET0), 0b0011_0111);
    assert_eq!(bus.get_reg(INT_SET1), 0b0001_1000);
}

#[test]
fn interrupt_disable_clears_only_its_mask() {
    let mut mock = MockBus::new();
    mock.set_reg(INT_SET1, 0xFF);
    let mut drv = MSA301::new(mock, AccelConfig::default());
    drv.new_data_int(Flag::Disable).unwrap();
    drv.freefall_int(Flag::Disable).unwrap();
    let bus = drv.destroy();
    assert_eq!(bus.get_reg(INT_SET1), 0b1110_0111);
}

#[test]
fn set_datarate_modifies_only_low_nibble() {
    let mut mock = MockBus::new();
    mock.set_reg(0x10, 0b1110_0000);
    let mut drv = MSA301::new(mock, AccelConfig::default());
    drv.set_datarate(DataRate::_250Hz).unwrap();
    assert!(matches!(drv.current_config().datarate, DataRate::_250Hz));
    let bus = drv.destroy();
    assert_eq!(bus.get_reg(0x10), 0b1110_1000);
}

#[test]
fn set_bandwidth_modifies_only_its_field() {
    let mut mock = MockBus::new();
    mock.set_reg(0x11, 0b1100_0001);
    let mut drv = MSA301::new(mock, AccelConfig::default());
    drv.set_bandwidth(BandWidth::_500Hz).unwrap();
    assert!(matches!(drv.current_config().bandwidth, BandWidth::_500Hz));
    let bus = drv.destroy();
    assert_eq!(bus.get_reg(0x11), 0b1101_0101);
}

#[test]
fn set_power_mode_modifies_only_top_bits() {
    let mut mock = MockBus::new();
    mock.set_reg(0x11, 0b0001_0010);
    let mut drv = MSA301::new(mock, AccelConfig::default());
    drv.set_power_mode(PowerMode::Suspend).unwrap();
    assert!(matches!(drv.current_config().powermode, PowerMode::Suspend));
    let bus = drv.destroy();
    assert_eq!(bus.get_reg(0x11), 0b1001_0010);
}

#[test]
fn set_resolution_modifies_only_bits_3_2() {
    let mut mock = MockBus::new();
    mock.set_reg(0x0F, 0b0000_0011);
    let mut drv = MSA301::new(mock, AccelConfig::default());
    drv.set_resolution(Res::_8bit).unwrap();
    assert!(matches!(drv.current_config().resolution, Res::_8bit));
    let bus = drv.destroy();
    assert_eq!(bus.get_reg(0x0F), 0b0000_1111);
}

#[test]
fn set_range_modifies_only_bits_1_0_and_cache() {
    let mut mock = MockBus::new();
    mock.set_reg(0x0F, 0b0000_1100);
    let mut drv = MSA301::new(mock, AccelConfig::default());
    drv.set_range(Range::_16g).unwrap();
    assert!(matches!(drv.current_config().range, Range::_16g));
    let bus = drv.destroy();
    assert_eq!(bus.get_reg(0x0F), 0b0000_1111);
}

#[test]
fn is_new_data_tests_bit_zero() {
    let mut mock = MockBus::new();
    mock.set_reg(0x0A, 0b0000_0001);
    let mut drv = MSA301::new(mock, AccelConfig::default());
    assert!(drv.is_new_data().unwrap());
    let mut mock2 = MockBus::new();
    mock2.set_reg(0x0A, 0b1111_1110);
    let mut drv2 = MSA301::new(mock2, AccelConfig::default());
    assert!(!drv2.is_new_data().unwrap());
}

#[test]
fn motion_int_status_decodes_flag_bits() {
    let mut mock = MockBus::new();
    mock.set_reg(0x09, 0b0101_0001);
    let mut drv = MSA301::new(mock, AccelConfig::default());
    let s = drv.motion_int_status().unwrap();
    assert!(s.orientation);
    assert!(!s.single_tap);
    assert!(s.double_tap);
    assert!(!s.active);
    assert!(s.freefall);
}

#[test]
fn pin_config_composes_the_byte() {
    let mut drv = MSA301::new(MockBus::new(), AccelConfig::default());
    drv.pin_config(IntPin::OpenDrain, IntActive::High).unwrap();
    let bus = drv.destroy();
    assert_eq!(bus.get_reg(0x20), 0b0000_0011);
    let mut drv2 = MSA301::new(MockBus::new(), AccelConfig::default());
    drv2.pin_config(IntPin::PushPull, IntActive::Low).unwrap();
    let bus2 = drv2.destroy();
    assert_eq!(bus2.get_reg(0x20), 0b0000_0000);
}

#[test]
fn new_data_pin_writes_the_map_register() {
    let mut drv = MSA301::new(MockBus::new(), AccelConfig::default());
    drv.new_data_pin(Flag::Enable).unwrap();
    let bus = drv.destroy();
    assert_eq!(bus.get_reg(0x1A), 0x01);
}

#[test]
fn set_int_latch_is_a_read_modify_write() {
    let mut mock = MockBus::new();
    mock.set_reg(0x21, 0b0101_0101);
    let mut drv = MSA301::new(mock, AccelConfig::default());
    drv.set_int_latch(true, IntLatch::Latched).unwrap();
    let bus = drv.destroy();
    assert_eq!(bus.get_reg(0x21), 0b1101_0111);
    assert_eq!(bus.write_count(), 1);
}

#[test]
fn bus_error_propagates_as_i2c_variant() {
    let mut mock = MockBus::new();
    mock.set_fail(true);
    let mut drv = MSA301::new(mock, AccelConfig::default());
    assert!(matches!(drv.get_device_id(), Err(Error::I2C(_))));
    assert!(matches!(drv.set_datarate(DataRate::_1Hz), Err(Error::I2C(_))));
    assert!(matches!(drv.orient_int(Flag::Enable), Err(Error::I2C(_))));
    assert!(matches!(drv.init_sensor(AccelConfig::default()), Err(Error::I2C(_))));
    assert!(matches!(drv.read_accel_raw(), Err(Error::I2C(_))));
}

#[test]
fn failed_setter_leaves_cached_config_unchanged() {
    let mut mock = MockBus::new();
    mock.set_fail(true);
    let mut drv = MSA301::new(mock, AccelConfig::default());
    let _ = drv.set_range(Range::_16g);
    assert!(matches!(drv.current_config().range, Range::_4g));
}
