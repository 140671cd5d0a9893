//! The version record a device reports for its firmware, hardware and
//! protocol.

use vstd::prelude::*;

use crate::shdlc::TranslationError;

verus! {

/// Version information for the hardware, the firmware and the SHDLC
/// protocol, as laid out in the seven-byte payload of the version
/// command.
#[derive(Clone, Copy, Debug, PartialEq, Eq, Hash, Structural)]
pub struct Version {
    pub firmware_major: u8,
    pub firmware_minor: u8,
    pub debug: bool,
    pub hardware_major: u8,
    pub hardware_minor: u8,
    pub protocol_major: u8,
    pub protocol_minor: u8,
}

impl Version {
    /// Splits a version payload into its record: firmware major and
    /// minor, the debug flag, hardware major and minor, protocol major
    /// and minor, in order.  Fails exactly when fewer than seven bytes
    /// were supplied.
    pub fn from_payload(data: &[u8]) -> (r: Result<Self, TranslationError>)
        ensures
            match r {
                Ok(v) => {
                    &&& data@.len() >= 7
                    &&& v.firmware_major == data@[0]
                    &&& v.firmware_minor == data@[1]
                    &&& v.debug == (data@[2] > 0)
                    &&& v.hardware_major == data@[3]
                    &&& v.hardware_minor == data@[4]
                    &&& v.protocol_major == data@[5]
                    &&& v.protocol_minor == data@[6]
                },
                Err(e) => data@.len() < 7 && e == TranslationError::NotEnoughData(
                    7,
                    data@.len() as u8,
                ),
            },
    {
        if data.len() < 7 {
            return Err(TranslationError::NotEnoughData(7, data.len() as u8));
        }
        Ok(Version {
            firmware_major: data[0],
            firmware_minor: data[1],
            debug: data[2] > 0,
            hardware_major: data[3],
            hardware_minor: data[4],
            protocol_major: data[5],
            protocol_minor: data[6],
        })
    }
}

} // verus!
