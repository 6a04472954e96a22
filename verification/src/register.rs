//! Register map of the accelerometer: symbolic register addresses and the
//! bit masks of the sub-fields inside the configuration registers.

use vstd::prelude::*;

verus! {

/// Symbolic names for the device's register addresses.
#[allow(non_camel_case_types)]
#[derive(Clone, Copy, Debug)]
pub enum Registers {
    /// Soft reset (r)
    SOFT_RESET,
    /// Part ID (r)
    PART_ID,
    /// X axis LSB (r)
    XAXIS_L,
    /// X axis MSB (r)
    XAXIS_H,
    /// Y axis LSB (r)
    YAXIS_L,
    /// Y axis MSB (r)
    YAXIS_H,
    /// Z axis LSB (r)
    ZAXIS_L,
    /// Z axis MSB (r)
    ZAXIS_H,
    /// Motion interrupt (r)
    MOTION_INT,
    /// Data interrupt (r)
    DATA_INT,
    /// Tap active status (r)
    TAP_ACTIVE,
    /// Orientation status (r)
    ORIENTATION,
    /// Resolution/range (r/w)
    RES_RANGE,
    /// Axis enabling and output data rate (r/w)
    CFG_ODR,
    /// Power mode/bandwidth (r/w)
    PWR_BW,
    /// Swap polarity (r/w)
    POLAR_SWP,
    /// Interrupt settings (r/w)
    INT_SET0,
    /// Interrupt settings (r/w)
    INT_SET1,
    /// Interrupt pin mapping (r/w)
    INT_MAP0,
    /// Interrupt pin mapping (r/w)
    INT_MAP1,
    /// Interrupt configuration (r/w)
    INT_CFG,
    /// Interrupt latching (r/w)
    INT_LATCH,
    /// Freefall duration (r/w)
    FRFL_DUR,
    /// Freefall threshold (r/w)
    FRFL_THS,
    /// Freefall hysteresis setting (r/w)
    FRFL_HYS,
    /// Active duration (r/w)
    ACTIVE_DUR,
    /// Active threshold (r/w)
    ACTIVE_THS,
    /// Tap duration (r/w)
    TAP_DUR,
    /// Tap threshold (r/w)
    TAP_THS,
    /// Orientation configuration (hysteresis, blocking mode, thresholds) (r/w)
    ORIENT_CFG,
    /// Z-compensation (r/w)
    Z_COMP,
    /// Offset compensation for the X-axis (r/w)
    OFFSET_X,
    /// Offset compensation for the Y-axis (r/w)
    OFFSET_Y,
    /// Offset compensation for the Z-axis (r/w)
    OFFSET_Z,
}

impl Registers {
    /// The byte address of the register on the device.
    pub open spec fn spec_addr(self) -> u8 {
        match self {
            Registers::SOFT_RESET => 0x00,
            Registers::PART_ID => 0x01,
            Registers::XAXIS_L => 0x02,
            Registers::XAXIS_H => 0x03,
            Registers::YAXIS_L => 0x04,
            Registers::YAXIS_H => 0x05,
            Registers::ZAXIS_L => 0x06,
            Registers::ZAXIS_H => 0x07,
            Registers::MOTION_INT => 0x09,
            Registers::DATA_INT => 0x0A,
            Registers::TAP_ACTIVE => 0x0B,
            Registers::ORIENTATION => 0x0C,
            Registers::RES_RANGE => 0x0F,
            Registers::CFG_ODR => 0x10,
            Registers::PWR_BW => 0x11,
            Registers::POLAR_SWP => 0x12,
            Registers::INT_SET0 => 0x16,
            Registers::INT_SET1 => 0x17,
            Registers::INT_MAP0 => 0x19,
            Registers::INT_MAP1 => 0x1A,
            Registers::INT_CFG => 0x20,
            Registers::INT_LATCH => 0x21,
            Registers::FRFL_DUR => 0x22,
            Registers::FRFL_THS => 0x23,
            Registers::FRFL_HYS => 0x24,
            Registers::ACTIVE_DUR => 0x27,
            Registers::ACTIVE_THS => 0x28,
            Registers::TAP_DUR => 0x2A,
            Registers::TAP_THS => 0x2B,
            Registers::ORIENT_CFG => 0x2C,
            Registers::Z_COMP => 0x2D,
            Registers::OFFSET_X => 0x38,
            Registers::OFFSET_Y => 0x39,
            Registers::OFFSET_Z => 0x3A,
        }
    }

    pub fn addr(self) -> (r: u8)
        ensures
            r == self.spec_addr(),
    {
        match self {
            Registers::SOFT_RESET => 0x00,
            Registers::PART_ID => 0x01,
            Registers::XAXIS_L => 0x02,
            Registers::XAXIS_H => 0x03,
            Registers::YAXIS_L => 0x04,
            Registers::YAXIS_H => 0x05,
            Registers::ZAXIS_L => 0x06,
            Registers::ZAXIS_H => 0x07,
            Registers::MOTION_INT => 0x09,
            Registers::DATA_INT => 0x0A,
            Registers::TAP_ACTIVE => 0x0B,
            Registers::ORIENTATION => 0x0C,
            Registers::RES_RANGE => 0x0F,
            Registers::CFG_ODR => 0x10,
            Registers::PWR_BW => 0x11,
            Registers::POLAR_SWP => 0x12,
            Registers::INT_SET0 => 0x16,
            Registers::INT_SET1 => 0x17,
            Registers::INT_MAP0 => 0x19,
            Registers::INT_MAP1 => 0x1A,
            Registers::INT_CFG => 0x20,
            Registers::INT_LATCH => 0x21,
            Registers::FRFL_DUR => 0x22,
            Registers::FRFL_THS => 0x23,
            Registers::FRFL_HYS => 0x24,
            Registers::ACTIVE_DUR => 0x27,
            Registers::ACTIVE_THS => 0x28,
            Registers::TAP_DUR => 0x2A,
            Registers::TAP_THS => 0x2B,
            Registers::ORIENT_CFG => 0x2C,
            Registers::Z_COMP => 0x2D,
            Registers::OFFSET_X => 0x38,
            Registers::OFFSET_Y => 0x39,
            Registers::OFFSET_Z => 0x3A,
        }
    }
}

/// Named bit masks, each scoped to a single register. Masks of distinct
/// fields within one register never overlap.
#[allow(non_camel_case_types)]
pub struct Bitmasks;

impl Bitmasks {
    // === CFG_ODR (0x10) ===
    /// Output data rate code, low nibble.
    pub const ODR_MASK: u8 = 0b0000_1111;
    /// Axis disable bits (X, Y, Z), inverted-enable convention.
    pub const AXES_MASK: u8 = 0b1110_0000;

    // === PWR_BW (0x11) ===
    /// Low-power bandwidth code, bits 4:1.
    pub const BW_MASK: u8 = 0b0001_1110;
    /// Power mode code, bits 7:6.
    pub const PWR_MASK: u8 = 0b1100_0000;

    // === RES_RANGE (0x0F) ===
    /// Resolution code, bits 3:2.
    pub const RESOLUTION: u8 = 0b0000_1100;
    /// Full-scale range code, bits 1:0.
    pub const FS: u8 = 0b0000_0011;

    // === INT_SET0 (0x16) ===
    /// Orientation interrupt enable.
    pub const ORIENT_INT_EN: u8 = 0b0100_0000;
    /// Single-tap interrupt enable.
    pub const S_TAP_INT_EN: u8 = 0b0010_0000;
    /// Double-tap interrupt enable.
    pub const D_TAP_INT_EN: u8 = 0b0001_0000;
    /// Activity interrupt enable, Z axis.
    pub const ACTIVE_INT_EN_Z: u8 = 0b0000_0100;
    /// Activity interrupt enable, Y axis.
    pub const ACTIVE_INT_EN_Y: u8 = 0b0000_0010;
    /// Activity interrupt enable, X axis.
    pub const ACTIVE_INT_EN_X: u8 = 0b0000_0001;

    // === INT_SET1 (0x17) ===
    /// New-data interrupt enable.
    pub const NEW_DATA_INT_EN: u8 = 0b0001_0000;
    /// Freefall interrupt enable.
    pub const FREEFALL_INT_EN: u8 = 0b0000_1000;

    // === DATA_INT (0x0A) ===
    /// New-data flag.
    pub const NEW_DATA_INT: u8 = 0b0000_0001;

    // === INT_LATCH (0x21) ===
    /// Latch reset bit.
    pub const RESET_INT: u8 = 0b1000_0000;
    /// Latch duration code, low nibble.
    pub const LATCH_INT: u8 = 0b0000_1111;
}

} // verus!
