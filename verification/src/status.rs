//! Classification of the status byte a device reports in every inbound
//! frame.
//!
//! The mapping from numeric code to error kind is part of the wire
//! contract and is exact; any code outside the table deliberately
//! collapses to `FatalError` rather than failing to parse.

use vstd::prelude::*;

verus! {

/// Errors sent back from a MISO frame, as reported by the device's status
/// byte.
#[derive(Debug, Clone, Copy, PartialEq, Eq, Structural)]
pub enum StateResponseError {
    /// Illegal data size of the MOSI frame, or a frame the firmware does
    /// not support.
    DataSizeError,
    /// The device does not know this command.
    UnknownCommand,
    /// A sent parameter is out of range.
    ParameterError,
    /// NACK received from the I2C device.
    I2CNackError,
    /// Master hold not released in I2C.
    I2CMasterHoldError,
    /// I2C CRC mismatch.
    CRCError,
    /// Sensor data read back differs from the written value.
    DataWriteError,
    /// Sensor measure loop is not running, or runs on the wrong gas
    /// number.
    MeasureLoopNotRunning,
    /// No valid gas calibration at the given index.
    InvalidCalibration,
    /// The sensor is busy at the moment.
    SensorBusy,
    /// Command is not allowed in the current state.
    CommandNotAllowed,
    /// An error without a specific error code.
    FatalError,
}

/// The wire mapping from a one-byte status code to its error kind.
/// Codes outside the table mean `FatalError`.
pub open spec fn status_of_code(code: u8) -> StateResponseError {
    if code == 0x01 {
        StateResponseError::DataSizeError
    } else if code == 0x02 {
        StateResponseError::UnknownCommand
    } else if code == 0x04 {
        StateResponseError::ParameterError
    } else if code == 0x29 {
        StateResponseError::I2CNackError
    } else if code == 0x2A {
        StateResponseError::I2CMasterHoldError
    } else if code == 0x2B {
        StateResponseError::CRCError
    } else if code == 0x2C {
        StateResponseError::DataWriteError
    } else if code == 0x2D {
        StateResponseError::MeasureLoopNotRunning
    } else if code == 0x33 {
        StateResponseError::InvalidCalibration
    } else if code == 0x42 {
        StateResponseError::SensorBusy
    } else if code == 0x32 {
        StateResponseError::CommandNotAllowed
    } else {
        StateResponseError::FatalError
    }
}

impl From<u8> for StateResponseError {
    /// Classifies a device status code; total over all byte values.
    fn from(value: u8) -> (r: Self)
        ensures
            r == status_of_code(value),
    {
        if value == 0x01 {
            Self::DataSizeError
        } else if value == 0x02 {
            Self::UnknownCommand
        } else if value == 0x04 {
            Self::ParameterError
        } else if value == 0x29 {
            Self::I2CNackError
        } else if value == 0x2A {
            Self::I2CMasterHoldError
        } else if value == 0x2B {
            Self::CRCError
        } else if value == 0x2C {
            Self::DataWriteError
        } else if value == 0x2D {
            Self::MeasureLoopNotRunning
        } else if value == 0x33 {
            Self::InvalidCalibration
        } else if value == 0x42 {
            Self::SensorBusy
        } else if value == 0x32 {
            Self::CommandNotAllowed
        } else {
            Self::FatalError
        }
    }
}

impl vstd::std_specs::convert::FromSpecImpl<u8> for StateResponseError {
    open spec fn obeys_from_spec() -> bool {
        true
    }

    open spec fn from_spec(v: u8) -> Self {
        status_of_code(v)
    }
}

} // verus!
