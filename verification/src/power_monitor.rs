//! The battery sensor: a power-monitoring chip with 16-bit registers on a
//! register-addressable bus. The caller moves the bytes; this module says
//! which bytes to write at start-up and what the bytes read mean.

use byteorder::{BigEndian, ByteOrder};
use vstd::prelude::*;
use vstd::string::*;
use crate::config::PowerConfig;
use crate::text::{append_decimal, decimal};

verus! {

/// The configuration register.
pub const REG_CONFIG: u8 = 0x00;

/// The shunt voltage register.
pub const REG_SHUNTVOLTAGE: u8 = 0x01;

/// The bus voltage register.
pub const REG_BUSVOLTAGE: u8 = 0x02;

/// The power register.
pub const REG_POWER: u8 = 0x03;

/// The current register.
pub const REG_CURRENT: u8 = 0x04;

/// The calibration register.
pub const REG_CALIBRATION: u8 = 0x05;

/// Bytes in a register.
pub const REGISTER_LEN: u8 = 2;

/// Configuration word: 32 V bus range, 320 mV shunt range, 12-bit
/// conversion, continuous measurement of shunt and bus.
pub const CONFIG_WORD: u16 = 0x219F;

/// Calibration word for a shunt of 0.1 ohm.
pub const CALIBRATION_WORD: u16 = 4096;

/// Hundredths of a percent in the whole.
pub const FULL_CHARGE: u32 = 10000;

/// One reading of the battery sensor.
#[derive(Debug, Clone, Copy, PartialEq, Eq, Structural)]
pub struct PowerStatus {
    /// Bus voltage in millivolts.
    pub voltage: u32,
    /// Magnitude of the current in microamperes.
    pub current: u32,
    /// Power in milliwatts.
    pub power: u32,
    /// Whether current flows into the battery.
    pub charging: bool,
    /// Charge in hundredths of a percent, from 0 to [`FULL_CHARGE`].
    pub percentage: u32,
}

/// Why the battery sensor failed.
#[derive(Debug, Clone, Copy, PartialEq, Eq, Structural)]
pub enum PowerError {
    /// The device could not be opened.
    OpenFailed,
    /// The configuration word could not be written.
    ConfigureFailed,
    /// The calibration word could not be written.
    CalibrateFailed,
    /// The bus voltage register could not be read.
    VoltageRead,
    /// The current register could not be read.
    CurrentRead,
    /// The power register could not be read.
    PowerRead,
}

/// The 16-bit word that two bytes spell, most significant byte first.
pub open spec fn be_word(bytes: Seq<u8>) -> int {
    bytes[0] * 256 + bytes[1]
}

/// The two bytes that spell `word`, most significant byte first.
pub open spec fn be_bytes(word: u16) -> Seq<u8> {
    seq![(word / 256) as u8, (word % 256) as u8]
}

/// A 16-bit word read as a number in two's complement.
pub open spec fn signed_word(word: int) -> int {
    if word < 0x8000 {
        word
    } else {
        word - 0x1_0000
    }
}

/// Calls `BigEndian::read_u16` of byteorder, which reads the first two
/// bytes of the slice as an unsigned number, most significant byte first,
/// and panics on a shorter slice.
#[verifier::external_body]
fn read_u16(bytes: &[u8]) -> (word: u16)
    requires
        bytes@.len() >= 2,
    ensures
        word == be_word(bytes@),
{
    BigEndian::read_u16(bytes)
}

/// Calls `BigEndian::read_i16` of byteorder, which reads the first two
/// bytes of the slice as a number in two's complement, most significant byte
/// first, and panics on a shorter slice.
#[verifier::external_body]
fn read_i16(bytes: &[u8]) -> (word: i16)
    requires
        bytes@.len() >= 2,
    ensures
        word == signed_word(be_word(bytes@)),
{
    BigEndian::read_i16(bytes)
}

/// Splits `word` into its two bytes, most significant byte first.
pub fn word_bytes(word: u16) -> (bytes: [u8; 2])
    ensures
        bytes@ == be_bytes(word),
{
    let bytes = [(word / 256) as u8, (word % 256) as u8];
    bytes
}

/// Millivolts on the bus, from the bus voltage register: the low three bits
/// are flags, the rest counts steps of 4 mV.
pub open spec fn bus_millivolts(word: int) -> int {
    (word / 8) * 4
}

/// Charge in hundredths of a percent: where `voltage` lies on the way from
/// `empty` to `full`, rounded down and kept between 0 and 10000. With `full`
/// equal to `empty`, anything above counts as full.
pub open spec fn percentage(voltage: int, empty: int, full: int) -> int {
    let share = if full > empty {
        ((voltage - empty) * 10000) / (full - empty)
    } else if full < empty {
        ((empty - voltage) * 10000) / (empty - full)
    } else if voltage > empty {
        10000
    } else {
        0
    };
    if share < 0 {
        0
    } else if share > 10000 {
        10000
    } else {
        share
    }
}

/// The status that the three registers spell.
pub open spec fn decoded(
    config: PowerConfig,
    bus_voltage: Seq<u8>,
    current: Seq<u8>,
    power: Seq<u8>,
) -> PowerStatus {
    let voltage = bus_millivolts(be_word(bus_voltage));
    let flow = signed_word(be_word(current));
    PowerStatus {
        voltage: voltage as u32,
        current: (if flow < 0 {
            -flow * 100
        } else {
            flow * 100
        }) as u32,
        power: (be_word(power) * 2) as u32,
        charging: flow > 0,
        percentage: percentage(
            voltage,
            config.shutdown_voltage as int,
            config.full_voltage as int,
        ) as u32,
    }
}

/// What came of reading the three status registers, in the order bus
/// voltage, current, power, [`REGISTER_LEN`] bytes each. The reads stop at
/// the first failure.
#[derive(Debug, Clone, Copy, PartialEq, Eq)]
pub enum RegisterReads {
    VoltageFailed,
    CurrentFailed,
    PowerFailed,
    Complete { bus_voltage: [u8; 2], current: [u8; 2], power: [u8; 2] },
}

/// What one reading of the sensor yields.
pub open spec fn status_of(config: PowerConfig, reads: RegisterReads) -> Result<
    PowerStatus,
    PowerError,
> {
    match reads {
        RegisterReads::VoltageFailed => Err(PowerError::VoltageRead),
        RegisterReads::CurrentFailed => Err(PowerError::CurrentRead),
        RegisterReads::PowerFailed => Err(PowerError::PowerRead),
        RegisterReads::Complete { bus_voltage, current, power } => Ok(
            decoded(config, bus_voltage@, current@, power@),
        ),
    }
}

/// A write of one register.
#[derive(Debug, Clone, Copy, PartialEq, Eq)]
pub struct RegisterWrite {
    pub register: u8,
    pub bytes: [u8; 2],
}

/// What the caller does to bring the sensor up: open the device at `path`
/// and `address`, then make the two writes in order.
#[derive(Debug, Clone)]
pub struct SetupPlan {
    pub path: String,
    pub address: u16,
    pub configure: RegisterWrite,
    pub calibrate: RegisterWrite,
}

/// How bringing the sensor up went.
#[derive(Debug, Clone, Copy, PartialEq, Eq, Structural)]
pub enum SetupOutcome {
    OpenFailed,
    ConfigureFailed,
    CalibrateFailed,
    Ready,
}

/// The path of the device of bus number `bus`.
pub open spec fn device_path(bus: u8) -> Seq<char> {
    "/dev/i2c-"@ + decimal(bus as nat)
}

/// The battery sensor.
#[derive(Debug, Clone, Copy, PartialEq, Eq, Structural)]
pub struct PowerMonitor {
    pub config: PowerConfig,
}

impl PowerMonitor {
    /// Says how to bring up the sensor that `config` names.
    pub fn setup_plan(config: &PowerConfig) -> (plan: SetupPlan)
        ensures
            plan.path@ == device_path(config.i2c_bus),
            plan.address == config.i2c_address,
            plan.configure.register == REG_CONFIG,
            plan.configure.bytes@ == be_bytes(CONFIG_WORD),
            plan.calibrate.register == REG_CALIBRATION,
            plan.calibrate.bytes@ == be_bytes(CALIBRATION_WORD),
    {
        let mut path = String::from_str("/dev/i2c-");
        append_decimal(&mut path, config.i2c_bus);
        SetupPlan {
            path,
            address: config.i2c_address,
            configure: RegisterWrite { register: REG_CONFIG, bytes: word_bytes(CONFIG_WORD) },
            calibrate: RegisterWrite {
                register: REG_CALIBRATION,
                bytes: word_bytes(CALIBRATION_WORD),
            },
        }
    }

    /// The monitor of a sensor that was brought up with the outcome `setup`.
    /// There is no monitor of a sensor that is not fully configured.
    pub fn new(config: PowerConfig, setup: SetupOutcome) -> (made: Result<PowerMonitor, PowerError>)
        ensures
            made == match setup {
                SetupOutcome::OpenFailed => Err::<PowerMonitor, PowerError>(PowerError::OpenFailed),
                SetupOutcome::ConfigureFailed => Err(PowerError::ConfigureFailed),
                SetupOutcome::CalibrateFailed => Err(PowerError::CalibrateFailed),
                SetupOutcome::Ready => Ok(PowerMonitor { config }),
            },
    {
        match setup {
            SetupOutcome::OpenFailed => Err(PowerError::OpenFailed),
            SetupOutcome::ConfigureFailed => Err(PowerError::ConfigureFailed),
            SetupOutcome::CalibrateFailed => Err(PowerError::CalibrateFailed),
            SetupOutcome::Ready => Ok(PowerMonitor { config }),
        }
    }

    /// Decodes one reading of the status registers. A failed read is
    /// reported for this reading only.
    pub fn read_status(&mut self, reads: &RegisterReads) -> (status: Result<
        PowerStatus,
        PowerError,
    >)
        ensures
            status == status_of(old(self).config, *reads),
            *final(self) == *old(self),
    {
        match reads {
            RegisterReads::VoltageFailed => Err(PowerError::VoltageRead),
            RegisterReads::CurrentFailed => Err(PowerError::CurrentRead),
            RegisterReads::PowerFailed => Err(PowerError::PowerRead),
            RegisterReads::Complete { bus_voltage, current, power } => {
                let bus_voltage_raw = read_u16(bus_voltage.as_slice());
                assert(bus_voltage_raw >> 3 == bus_voltage_raw / 8) by (bit_vector);
                let voltage: u32 = ((bus_voltage_raw >> 3) as u32) * 4;
                let current_raw = read_i16(current.as_slice());
                let flow: i32 = current_raw as i32;
                let magnitude: u32 = if flow < 0 {
                    (-flow) as u32
                } else {
                    flow as u32
                };
                let power_raw = read_u16(power.as_slice());
                Ok(
                    PowerStatus {
                        voltage,
                        current: magnitude * 100,
                        power: (power_raw as u32) * 2,
                        charging: current_raw > 0,
                        percentage: self.calculate_percentage(voltage),
                    },
                )
            },
        }
    }

    /// The charge that `voltage`, in millivolts, stands for.
    pub fn calculate_percentage(&self, voltage: u32) -> (share: u32)
        ensures
            share == percentage(
                voltage as int,
                self.config.shutdown_voltage as int,
                self.config.full_voltage as int,
            ),
            share <= FULL_CHARGE,
    {
        let empty = self.config.shutdown_voltage;
        let full = self.config.full_voltage;
        if full > empty {
            if voltage <= empty {
                assert(((voltage - empty) * 10000) / (full - empty) <= 0) by (nonlinear_arith)
                    requires
                        voltage <= empty,
                        full > empty,
                ;
                0
            } else if voltage >= full {
                assert(((voltage - empty) * 10000) / (full - empty) >= 10000)
                    by (nonlinear_arith)
                    requires
                        voltage >= full,
                        full > empty,
                ;
                FULL_CHARGE
            } else {
                let span: u64 = (full - empty) as u64;
                let above: u64 = (voltage - empty) as u64;
                assert(0 <= (above * 10000) / (span as int) <= 10000) by (nonlinear_arith)
                    requires
                        0 <= above < span,
                ;
                (above * 10000 / span) as u32
            }
        } else if full < empty {
            if voltage >= empty {
                assert(((empty - voltage) * 10000) / (empty - full) <= 0) by (nonlinear_arith)
                    requires
                        voltage >= empty,
                        full < empty,
                ;
                0
            } else if voltage <= full {
                assert(((empty - voltage) * 10000) / (empty - full) >= 10000)
                    by (nonlinear_arith)
                    requires
                        voltage <= full,
                        full < empty,
                ;
                FULL_CHARGE
            } else {
                let span: u64 = (empty - full) as u64;
                let below: u64 = (empty - voltage) as u64;
                assert(0 <= (below * 10000) / (span as int) <= 10000) by (nonlinear_arith)
                    requires
                        0 <= below < span,
                ;
                (below * 10000 / span) as u32
            }
        } else if voltage > empty {
            FULL_CHARGE
        } else {
            0
        }
    }
}

} // verus!
