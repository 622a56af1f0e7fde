//! Register catalog of the sensor: fixed addresses, bit-field positions,
//! the identity constant, and the sensitivity table of each selectable
//! range. Bit-fields are given as `(start, length)` pairs with bit 0 the
//! least significant bit of the register byte.
//!
//! Gyroscope sensitivities carry one decimal place in the datasheet
//! (131.0, 65.5, 32.8, 16.4 counts per degree/s), so the table stores
//! them in tenths of a count to stay in integer arithmetic.

#![allow(non_camel_case_types)]

use vstd::prelude::*;

verus! {

/// Default bus address of the device (AD0 pin low).
pub const DEFAULT_SLAVE_ADDR: u8 = 0x68;

/// Identity register; reads back the fixed chip id.
pub const WHOAMI: u8 = 0x75;

/// High byte of the accelerometer output block (x, y, z word pairs).
pub const ACC_REGX_H: u8 = 0x3b;

/// High byte of the die temperature output word.
pub const TEMP_OUT_H: u8 = 0x41;

/// High byte of the gyroscope output block (x, y, z word pairs).
pub const GYRO_REGX_H: u8 = 0x43;

/// High byte of the gyroscope x-axis hardware offset word.
pub const XG_OFFS_USRH: u8 = 0x13;

/// High byte of the gyroscope y-axis hardware offset word.
pub const YG_OFFS_USRH: u8 = 0x15;

/// High byte of the gyroscope z-axis hardware offset word.
pub const ZG_OFFS_USRH: u8 = 0x17;

/// Motion detection threshold register.
pub const MOT_THR: u8 = 0x1f;

/// Motion detection duration register.
pub const MOT_DUR: u8 = 0x20;

/// Motion detection control register.
pub const MOT_DETECT_CTRL: u8 = 0x69;

/// Power management register.
pub const PWR_MGMT_1_ADDR: u8 = 0x6b;

/// Device reset bit of the power management register.
pub const PWR_MGMT_1_DEVICE_RESET: u8 = 7;

/// Sleep bit of the power management register.
pub const PWR_MGMT_1_SLEEP: u8 = 6;

/// Temperature-disable bit of the power management register
/// (1 means the temperature sensor is disabled).
pub const PWR_MGMT_1_TEMP_DIS: u8 = 3;

/// Start bit of the clock source field.
pub const PWR_MGMT_1_CLKSEL_START: u8 = 0;

/// Length of the clock source field.
pub const PWR_MGMT_1_CLKSEL_LENGTH: u8 = 3;

/// Gyroscope configuration register.
pub const GYRO_CONFIG_ADDR: u8 = 0x1b;

/// Start bit of the gyroscope full-scale range field.
pub const GYRO_CONFIG_FS_SEL_START: u8 = 3;

/// Length of the gyroscope full-scale range field.
pub const GYRO_CONFIG_FS_SEL_LENGTH: u8 = 2;

/// Accelerometer configuration register.
pub const ACCEL_CONFIG_ADDR: u8 = 0x1c;

/// Accelerometer x-axis self-test bit.
pub const ACCEL_CONFIG_XA_ST: u8 = 7;

/// Accelerometer y-axis self-test bit.
pub const ACCEL_CONFIG_YA_ST: u8 = 6;

/// Accelerometer z-axis self-test bit.
pub const ACCEL_CONFIG_ZA_ST: u8 = 5;

/// Start bit of the accelerometer full-scale range field.
pub const ACCEL_CONFIG_FS_SEL_START: u8 = 3;

/// Length of the accelerometer full-scale range field.
pub const ACCEL_CONFIG_FS_SEL_LENGTH: u8 = 2;

/// Start bit of the accelerometer high-pass filter field.
pub const ACCEL_CONFIG_HPF_START: u8 = 0;

/// Length of the accelerometer high-pass filter field.
pub const ACCEL_CONFIG_HPF_LENGTH: u8 = 3;

/// Interrupt pin configuration register.
pub const INT_PIN_CFG_ADDR: u8 = 0x37;

/// Interrupt enable register.
pub const INT_ENABLE_ADDR: u8 = 0x38;

/// Interrupt status register.
pub const INT_STATUS_ADDR: u8 = 0x3a;

/// Motion interrupt bit of the interrupt status register.
pub const INT_STATUS_MOT_INT: u8 = 6;

/// Accelerometer full-scale range, in g.
#[derive(Clone, Copy, Debug, PartialEq, Eq, Structural)]
pub enum AccelRange {
    G2,
    G4,
    G8,
    G16,
}

/// Gyroscope full-scale range, in degrees per second.
#[derive(Clone, Copy, Debug, PartialEq, Eq, Structural)]
pub enum GyroRange {
    D250,
    D500,
    D1000,
    D2000,
}

/// Clock source of the device.
#[derive(Clone, Copy, Debug, PartialEq, Eq, Structural)]
pub enum CLKSEL {
    /// Internal 8 MHz oscillator.
    OSCILL,
    /// PLL with x-axis gyroscope reference.
    GXAXIS,
    /// PLL with y-axis gyroscope reference.
    GYAXIS,
    /// PLL with z-axis gyroscope reference.
    GZAXIS,
    /// PLL with external 32.768 kHz reference.
    EXT_32P7,
    /// PLL with external 19.2 MHz reference.
    EXT_19P2,
    /// Reserved setting.
    RESERV,
    /// Stops the clock, keeping the timing generator in reset.
    STOP,
}

/// Accelerometer high-pass filter setting.
#[derive(Clone, Copy, Debug, PartialEq, Eq, Structural)]
pub enum ACCEL_HPF {
    /// Filter off; output tracks the full signal.
    _RESET,
    /// 5 Hz cut-off.
    _5,
    /// 2.5 Hz cut-off.
    _2P5,
    /// 1.25 Hz cut-off.
    _1P25,
    /// 0.63 Hz cut-off.
    _0P63,
    /// Hold the current sample.
    _HOLD,
}

impl AccelRange {
    /// The register field code of this range.
    pub open spec fn spec_code(self) -> u8 {
        match self {
            AccelRange::G2 => 0u8,
            AccelRange::G4 => 1u8,
            AccelRange::G8 => 2u8,
            AccelRange::G16 => 3u8,
        }
    }

    /// The sensitivity of this range, in counts per g.
    pub open spec fn spec_sensitivity(self) -> u16 {
        match self {
            AccelRange::G2 => 16384u16,
            AccelRange::G4 => 8192u16,
            AccelRange::G8 => 4096u16,
            AccelRange::G16 => 2048u16,
        }
    }

    /// The range selected by a register field code; codes above 3 fall
    /// back to the lowest range.
    pub open spec fn spec_from_code(code: u8) -> AccelRange {
        if code == 1 {
            AccelRange::G4
        } else if code == 2 {
            AccelRange::G8
        } else if code == 3 {
            AccelRange::G16
        } else {
            AccelRange::G2
        }
    }

    /// Returns the register field code of this range.
    pub fn code(self) -> (r: u8)
        ensures
            r == self.spec_code(),
            r < 4,
    {
        match self {
            AccelRange::G2 => 0,
            AccelRange::G4 => 1,
            AccelRange::G8 => 2,
            AccelRange::G16 => 3,
        }
    }

    /// Returns the sensitivity of this range, in counts per g.
    pub fn sensitivity(self) -> (r: u16)
        ensures
            r == self.spec_sensitivity(),
            r > 0,
    {
        match self {
            AccelRange::G2 => 16384,
            AccelRange::G4 => 8192,
            AccelRange::G8 => 4096,
            AccelRange::G16 => 2048,
        }
    }

    /// Returns the range selected by a register field code.
    pub fn from_code(code: u8) -> (r: AccelRange)
        ensures
            r == AccelRange::spec_from_code(code),
    {
        if code == 1 {
            AccelRange::G4
        } else if code == 2 {
            AccelRange::G8
        } else if code == 3 {
            AccelRange::G16
        } else {
            AccelRange::G2
        }
    }
}

impl GyroRange {
    /// The register field code of this range.
    pub open spec fn spec_code(self) -> u8 {
        match self {
            GyroRange::D250 => 0u8,
            GyroRange::D500 => 1u8,
            GyroRange::D1000 => 2u8,
            GyroRange::D2000 => 3u8,
        }
    }

    /// The sensitivity of this range, in tenths of a count per degree/s
    /// (131.0, 65.5, 32.8 and 16.4 counts per degree/s).
    pub open spec fn spec_sensitivity_deci(self) -> u16 {
        match self {
            GyroRange::D250 => 1310u16,
            GyroRange::D500 => 655u16,
            GyroRange::D1000 => 328u16,
            GyroRange::D2000 => 164u16,
        }
    }

    /// The range selected by a register field code; codes above 3 fall
    /// back to the lowest range.
    pub open spec fn spec_from_code(code: u8) -> GyroRange {
        if code == 1 {
            GyroRange::D500
        } else if code == 2 {
            GyroRange::D1000
        } else if code == 3 {
            GyroRange::D2000
        } else {
            GyroRange::D250
        }
    }

    /// Returns the register field code of this range.
    pub fn code(self) -> (r: u8)
        ensures
            r == self.spec_code(),
            r < 4,
    {
        match self {
            GyroRange::D250 => 0,
            GyroRange::D500 => 1,
            GyroRange::D1000 => 2,
            GyroRange::D2000 => 3,
        }
    }

    /// Returns the sensitivity of this range, in tenths of a count per
    /// degree/s.
    pub fn sensitivity_deci(self) -> (r: u16)
        ensures
            r == self.spec_sensitivity_deci(),
            r > 0,
    {
        match self {
            GyroRange::D250 => 1310,
            GyroRange::D500 => 655,
            GyroRange::D1000 => 328,
            GyroRange::D2000 => 164,
        }
    }

    /// Returns the range selected by a register field code.
    pub fn from_code(code: u8) -> (r: GyroRange)
        ensures
            r == GyroRange::spec_from_code(code),
    {
        if code == 1 {
            GyroRange::D500
        } else if code == 2 {
            GyroRange::D1000
        } else if code == 3 {
            GyroRange::D2000
        } else {
            GyroRange::D250
        }
    }
}

impl CLKSEL {
    /// The register field code of this clock source.
    pub open spec fn spec_code(self) -> u8 {
        match self {
            CLKSEL::OSCILL => 0u8,
            CLKSEL::GXAXIS => 1u8,
            CLKSEL::GYAXIS => 2u8,
            CLKSEL::GZAXIS => 3u8,
            CLKSEL::EXT_32P7 => 4u8,
            CLKSEL::EXT_19P2 => 5u8,
            CLKSEL::RESERV => 6u8,
            CLKSEL::STOP => 7u8,
        }
    }

    /// The clock source selected by a register field code; codes above 7
    /// fall back to the internal oscillator.
    pub open spec fn spec_from_code(code: u8) -> CLKSEL {
        if code == 1 {
            CLKSEL::GXAXIS
        } else if code == 2 {
            CLKSEL::GYAXIS
        } else if code == 3 {
            CLKSEL::GZAXIS
        } else if code == 4 {
            CLKSEL::EXT_32P7
        } else if code == 5 {
            CLKSEL::EXT_19P2
        } else if code == 6 {
            CLKSEL::RESERV
        } else if code == 7 {
            CLKSEL::STOP
        } else {
            CLKSEL::OSCILL
        }
    }

    /// Returns the register field code of this clock source.
    pub fn code(self) -> (r: u8)
        ensures
            r == self.spec_code(),
            r < 8,
    {
        match self {
            CLKSEL::OSCILL => 0,
            CLKSEL::GXAXIS => 1,
            CLKSEL::GYAXIS => 2,
            CLKSEL::GZAXIS => 3,
            CLKSEL::EXT_32P7 => 4,
            CLKSEL::EXT_19P2 => 5,
            CLKSEL::RESERV => 6,
            CLKSEL::STOP => 7,
        }
    }

    /// Returns the clock source selected by a register field code.
    pub fn from_code(code: u8) -> (r: CLKSEL)
        ensures
            r == CLKSEL::spec_from_code(code),
    {
        if code == 1 {
            CLKSEL::GXAXIS
        } else if code == 2 {
            CLKSEL::GYAXIS
        } else if code == 3 {
            CLKSEL::GZAXIS
        } else if code == 4 {
            CLKSEL::EXT_32P7
        } else if code == 5 {
            CLKSEL::EXT_19P2
        } else if code == 6 {
            CLKSEL::RESERV
        } else if code == 7 {
            CLKSEL::STOP
        } else {
            CLKSEL::OSCILL
        }
    }
}

impl ACCEL_HPF {
    /// The register field code of this filter setting.
    pub open spec fn spec_code(self) -> u8 {
        match self {
            ACCEL_HPF::_RESET => 0u8,
            ACCEL_HPF::_5 => 1u8,
            ACCEL_HPF::_2P5 => 2u8,
            ACCEL_HPF::_1P25 => 3u8,
            ACCEL_HPF::_0P63 => 4u8,
            ACCEL_HPF::_HOLD => 7u8,
        }
    }

    /// The filter setting selected by a register field code; codes with
    /// no setting fall back to the filter-off setting.
    pub open spec fn spec_from_code(code: u8) -> ACCEL_HPF {
        if code == 1 {
            ACCEL_HPF::_5
        } else if code == 2 {
            ACCEL_HPF::_2P5
        } else if code == 3 {
            ACCEL_HPF::_1P25
        } else if code == 4 {
            ACCEL_HPF::_0P63
        } else if code == 7 {
            ACCEL_HPF::_HOLD
        } else {
            ACCEL_HPF::_RESET
        }
    }

    /// Returns the register field code of this filter setting.
    pub fn code(self) -> (r: u8)
        ensures
            r == self.spec_code(),
            r < 8,
    {
        match self {
            ACCEL_HPF::_RESET => 0,
            ACCEL_HPF::_5 => 1,
            ACCEL_HPF::_2P5 => 2,
            ACCEL_HPF::_1P25 => 3,
            ACCEL_HPF::_0P63 => 4,
            ACCEL_HPF::_HOLD => 7,
        }
    }

    /// Returns the filter setting selected by a register field code.
    pub fn from_code(code: u8) -> (r: ACCEL_HPF)
        ensures
            r == ACCEL_HPF::spec_from_code(code),
    {
        if code == 1 {
            ACCEL_HPF::_5
        } else if code == 2 {
            ACCEL_HPF::_2P5
        } else if code == 3 {
            ACCEL_HPF::_1P25
        } else if code == 4 {
            ACCEL_HPF::_0P63
        } else if code == 7 {
            ACCEL_HPF::_HOLD
        } else {
            ACCEL_HPF::_RESET
        }
    }
}

} // verus!
