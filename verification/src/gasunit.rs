//! Gas calibrations come with units of measurement: an SI prefix, a flow
//! unit and a time base, each transmitted as one byte.  The byte tables
//! here are part of the wire contract; codes outside a table map to the
//! `Undefined` member of each enumeration rather than failing.

use vstd::prelude::*;

verus! {

/// A gas unit as the device transmits it: (SI prefix * flow unit) / time
/// base, such as standard liters per minute.
#[derive(Clone, Copy, Debug, PartialEq, Eq, Structural)]
pub struct GasUnit {
    pub unit_prefex: Prefixes,
    pub medium_unit: Units,
    pub timebase: TimeBases,
}

/// SI prefixes that the device can transmit, coded as the signed decimal
/// exponent.
#[derive(Clone, Copy, Debug, PartialEq, Eq, Structural)]
pub enum Prefixes {
    Yocto,
    Zepto,
    Atto,
    Femto,
    Pico,
    Nano,
    Micro,
    Milli,
    Centi,
    Deci,
    Base,
    Deca,
    Hecto,
    Kilo,
    Mega,
    Giga,
    Tera,
    Peta,
    Exa,
    Zetta,
    Yotta,
    Undefined,
}

/// The wire mapping from a signed exponent byte to its SI prefix.
pub open spec fn prefix_of_code(v: i8) -> Prefixes {
    if v == -24 {
        Prefixes::Yocto
    } else if v == -21 {
        Prefixes::Zepto
    } else if v == -18 {
        Prefixes::Atto
    } else if v == -15 {
        Prefixes::Femto
    } else if v == -12 {
        Prefixes::Pico
    } else if v == -9 {
        Prefixes::Nano
    } else if v == -6 {
        Prefixes::Micro
    } else if v == -3 {
        Prefixes::Milli
    } else if v == -2 {
        Prefixes::Centi
    } else if v == -1 {
        Prefixes::Deci
    } else if v == 0 {
        Prefixes::Base
    } else if v == 1 {
        Prefixes::Deca
    } else if v == 2 {
        Prefixes::Hecto
    } else if v == 3 {
        Prefixes::Kilo
    } else if v == 6 {
        Prefixes::Mega
    } else if v == 9 {
        Prefixes::Giga
    } else if v == 12 {
        Prefixes::Tera
    } else if v == 15 {
        Prefixes::Peta
    } else if v == 18 {
        Prefixes::Exa
    } else if v == 21 {
        Prefixes::Zetta
    } else if v == 24 {
        Prefixes::Yotta
    } else {
        Prefixes::Undefined
    }
}

/// The signed exponent byte a prefix is transmitted as; `Undefined`
/// encodes as the out-of-table marker 0x7F.
pub open spec fn code_of_prefix(p: Prefixes) -> i8 {
    match p {
        Prefixes::Yocto => -24i8,
        Prefixes::Zepto => -21i8,
        Prefixes::Atto => -18i8,
        Prefixes::Femto => -15i8,
        Prefixes::Pico => -12i8,
        Prefixes::Nano => -9i8,
        Prefixes::Micro => -6i8,
        Prefixes::Milli => -3i8,
        Prefixes::Centi => -2i8,
        Prefixes::Deci => -1i8,
        Prefixes::Base => 0i8,
        Prefixes::Deca => 1i8,
        Prefixes::Hecto => 2i8,
        Prefixes::Kilo => 3i8,
        Prefixes::Mega => 6i8,
        Prefixes::Giga => 9i8,
        Prefixes::Tera => 12i8,
        Prefixes::Peta => 15i8,
        Prefixes::Exa => 18i8,
        Prefixes::Zetta => 21i8,
        Prefixes::Yotta => 24i8,
        Prefixes::Undefined => 0x7Fi8,
    }
}

impl From<i8> for Prefixes {
    /// Decodes a signed exponent byte; total over all byte values.
    fn from(value: i8) -> (r: Self)
        ensures
            r == prefix_of_code(value),
    {
        if value == -24 {
            Self::Yocto
        } else if value == -21 {
            Self::Zepto
        } else if value == -18 {
            Self::Atto
        } else if value == -15 {
            Self::Femto
        } else if value == -12 {
            Self::Pico
        } else if value == -9 {
            Self::Nano
        } else if value == -6 {
            Self::Micro
        } else if value == -3 {
            Self::Milli
        } else if value == -2 {
            Self::Centi
        } else if value == -1 {
            Self::Deci
        } else if value == 0 {
            Self::Base
        } else if value == 1 {
            Self::Deca
        } else if value == 2 {
            Self::Hecto
        } else if value == 3 {
            Self::Kilo
        } else if value == 6 {
            Self::Mega
        } else if value == 9 {
            Self::Giga
        } else if value == 12 {
            Self::Tera
        } else if value == 15 {
            Self::Peta
        } else if value == 18 {
            Self::Exa
        } else if value == 21 {
            Self::Zetta
        } else if value == 24 {
            Self::Yotta
        } else {
            Self::Undefined
        }
    }
}

impl vstd::std_specs::convert::FromSpecImpl<i8> for Prefixes {
    open spec fn obeys_from_spec() -> bool {
        true
    }

    open spec fn from_spec(v: i8) -> Self {
        prefix_of_code(v)
    }
}

impl From<Prefixes> for i8 {
    /// Encodes a prefix back into its signed exponent byte.
    fn from(value: Prefixes) -> (r: Self)
        ensures
            r == code_of_prefix(value),
    {
        match value {
            Prefixes::Yocto => -24,
            Prefixes::Zepto => -21,
            Prefixes::Atto => -18,
            Prefixes::Femto => -15,
            Prefixes::Pico => -12,
            Prefixes::Nano => -9,
            Prefixes::Micro => -6,
            Prefixes::Milli => -3,
            Prefixes::Centi => -2,
            Prefixes::Deci => -1,
            Prefixes::Base => 0,
            Prefixes::Deca => 1,
            Prefixes::Hecto => 2,
            Prefixes::Kilo => 3,
            Prefixes::Mega => 6,
            Prefixes::Giga => 9,
            Prefixes::Tera => 12,
            Prefixes::Peta => 15,
            Prefixes::Exa => 18,
            Prefixes::Zetta => 21,
            Prefixes::Yotta => 24,
            Prefixes::Undefined => 0x7F,
        }
    }
}

impl vstd::std_specs::convert::FromSpecImpl<Prefixes> for i8 {
    open spec fn obeys_from_spec() -> bool {
        true
    }

    open spec fn from_spec(v: Prefixes) -> Self {
        code_of_prefix(v)
    }
}

/// Different units of flow the device can be calibrated to.
#[derive(Clone, Copy, Debug, PartialEq, Eq, Structural)]
pub enum Units {
    NormLiter,
    StandardLiter,
    LiterLiquid,
    Gram,
    Pascal,
    Bar,
    MeterH20,
    InchH20,
    Undefined,
}

/// The wire mapping from a unit byte to its flow unit.
pub open spec fn unit_of_code(v: u8) -> Units {
    if v == 0 {
        Units::NormLiter
    } else if v == 1 {
        Units::StandardLiter
    } else if v == 8 {
        Units::LiterLiquid
    } else if v == 9 {
        Units::Gram
    } else if v == 16 {
        Units::Pascal
    } else if v == 17 {
        Units::Bar
    } else if v == 18 {
        Units::MeterH20
    } else if v == 19 {
        Units::InchH20
    } else {
        Units::Undefined
    }
}

/// The byte a flow unit is transmitted as; `Undefined` encodes as the
/// out-of-table marker 0xFF.
pub open spec fn code_of_unit(u: Units) -> u8 {
    match u {
        Units::NormLiter => 0,
        Units::StandardLiter => 1,
        Units::LiterLiquid => 8,
        Units::Gram => 9,
        Units::Pascal => 16,
        Units::Bar => 17,
        Units::MeterH20 => 18,
        Units::InchH20 => 19,
        Units::Undefined => 0xFF,
    }
}

impl From<u8> for Units {
    /// Decodes a unit byte; total over all byte values.
    fn from(value: u8) -> (r: Self)
        ensures
            r == unit_of_code(value),
    {
        if value == 0 {
            Self::NormLiter
        } else if value == 1 {
            Self::StandardLiter
        } else if value == 8 {
            Self::LiterLiquid
        } else if value == 9 {
            Self::Gram
        } else if value == 16 {
            Self::Pascal
        } else if value == 17 {
            Self::Bar
        } else if value == 18 {
            Self::MeterH20
        } else if value == 19 {
            Self::InchH20
        } else {
            Self::Undefined
        }
    }
}

impl vstd::std_specs::convert::FromSpecImpl<u8> for Units {
    open spec fn obeys_from_spec() -> bool {
        true
    }

    open spec fn from_spec(v: u8) -> Self {
        unit_of_code(v)
    }
}

impl From<Units> for u8 {
    /// Encodes a flow unit back into its wire byte.
    fn from(value: Units) -> (r: Self)
        ensures
            r == code_of_unit(value),
    {
        match value {
            Units::NormLiter => 0,
            Units::StandardLiter => 1,
            Units::LiterLiquid => 8,
            Units::Gram => 9,
            Units::Pascal => 16,
            Units::Bar => 17,
            Units::MeterH20 => 18,
            Units::InchH20 => 19,
            Units::Undefined => 0xFF,
        }
    }
}

impl vstd::std_specs::convert::FromSpecImpl<Units> for u8 {
    open spec fn obeys_from_spec() -> bool {
        true
    }

    open spec fn from_spec(v: Units) -> Self {
        code_of_unit(v)
    }
}

/// Timescales for the calibrations.
#[derive(Clone, Copy, Debug, PartialEq, Eq, Structural)]
pub enum TimeBases {
    NoTimeBase,
    Microsecond,
    Milisecond,
    Second,
    Minute,
    Hour,
    Day,
    Undefined,
}

/// The wire mapping from a time-base byte to its timescale.
pub open spec fn timebase_of_code(v: u8) -> TimeBases {
    if v == 0 {
        TimeBases::NoTimeBase
    } else if v == 1 {
        TimeBases::Microsecond
    } else if v == 2 {
        TimeBases::Milisecond
    } else if v == 3 {
        TimeBases::Second
    } else if v == 4 {
        TimeBases::Minute
    } else if v == 5 {
        TimeBases::Hour
    } else if v == 6 {
        TimeBases::Day
    } else {
        TimeBases::Undefined
    }
}

/// The byte a timescale is transmitted as; `Undefined` encodes as the
/// out-of-table marker 0xFF.
pub open spec fn code_of_timebase(t: TimeBases) -> u8 {
    match t {
        TimeBases::NoTimeBase => 0,
        TimeBases::Microsecond => 1,
        TimeBases::Milisecond => 2,
        TimeBases::Second => 3,
        TimeBases::Minute => 4,
        TimeBases::Hour => 5,
        TimeBases::Day => 6,
        TimeBases::Undefined => 0xFF,
    }
}

impl From<u8> for TimeBases {
    /// Decodes a time-base byte; total over all byte values.
    fn from(value: u8) -> (r: Self)
        ensures
            r == timebase_of_code(value),
    {
        if value == 0 {
            Self::NoTimeBase
        } else if value == 1 {
            Self::Microsecond
        } else if value == 2 {
            Self::Milisecond
        } else if value == 3 {
            Self::Second
        } else if value == 4 {
            Self::Minute
        } else if value == 5 {
            Self::Hour
        } else if value == 6 {
            Self::Day
        } else {
            Self::Undefined
        }
    }
}

impl vstd::std_specs::convert::FromSpecImpl<u8> for TimeBases {
    open spec fn obeys_from_spec() -> bool {
        true
    }

    open spec fn from_spec(v: u8) -> Self {
        timebase_of_code(v)
    }
}

impl From<TimeBases> for u8 {
    /// Encodes a timescale back into its wire byte.
    fn from(value: TimeBases) -> (r: Self)
        ensures
            r == code_of_timebase(value),
    {
        match value {
            TimeBases::NoTimeBase => 0,
            TimeBases::Microsecond => 1,
            TimeBases::Milisecond => 2,
            TimeBases::Second => 3,
            TimeBases::Minute => 4,
            TimeBases::Hour => 5,
            TimeBases::Day => 6,
            TimeBases::Undefined => 0xFF,
        }
    }
}

impl vstd::std_specs::convert::FromSpecImpl<TimeBases> for u8 {
    open spec fn obeys_from_spec() -> bool {
        true
    }

    open spec fn from_spec(v: TimeBases) -> Self {
        code_of_timebase(v)
    }
}

/// The signed value a transmitted byte stands for, two's complement.
pub open spec fn signed_of(b: u8) -> i8 {
    if b < 128 {
        b as i8
    } else {
        (b - 256) as i8
    }
}

impl GasUnit {
    /// Decodes the three-byte wire form of a gas unit: the signed prefix
    /// exponent, the unit byte and the time-base byte, in order.
    pub fn from_be_bytes(bytes: [u8; 3]) -> (r: Self)
        ensures
            r.unit_prefex == prefix_of_code(signed_of(bytes[0])),
            r.medium_unit == unit_of_code(bytes[1]),
            r.timebase == timebase_of_code(bytes[2]),
    {
        let b0 = bytes[0];
        let sv: i8 = if b0 < 128 {
            b0 as i8
        } else {
            ((b0 as i16) - 256) as i8
        };
        GasUnit {
            unit_prefex: Prefixes::from(sv),
            medium_unit: Units::from(bytes[1]),
            timebase: TimeBases::from(bytes[2]),
        }
    }
}

} // verus!
