use sfc_core::gasunit::GasUnit;
use sfc_core::gasunit::Prefixes;
use sfc_core::gasunit::TimeBases;
use sfc_core::gasunit::Units;
use sfc_core::shdlc::TranslationError;
use sfc_core::version::Version;

#[test]
fn default_calibration_unit_decodes() {
    // prefix exponent 0, standard liters, per minute
    let unit = GasUnit::from_be_bytes([0, 1, 4]);
    let expected = GasUnit {
        unit_prefex: Prefixes::Base,
        medium_unit: Units::StandardLiter,
        timebase: TimeBases::Minute,
    };
    assert_eq!(unit, expected);
}

#[test]
fn negative_prefix_exponent_decodes() {
    // 0xFD is the two's-complement byte for -3
    let unit = GasUnit::from_be_bytes([0xFD, 0, 3]);
    assert_eq!(unit.unit_prefex, Prefixes::Milli);
    assert_eq!(unit.medium_unit, Units::NormLiter);
    assert_eq!(unit.timebase, TimeBases::Second);
}

#[test]
fn prefix_codes_round_trip() {
    let prefixes = [
        Prefixes::Yocto,
        Prefixes::Zepto,
        Prefixes::Atto,
        Prefixes::Femto,
        Prefixes::Pico,
        Prefixes::Nano,
        Prefixes::Micro,
        Prefixes::Milli,
        Prefixes::Centi,
        Prefixes::Deci,
        Prefixes::Base,
        Prefixes::Deca,
        Prefixes::Hecto,
        Prefixes::Kilo,
        Prefixes::Mega,
        Prefixes::Giga,
        Prefixes::Tera,
        Prefixes::Peta,
        Prefixes::Exa,
        Prefixes::Zetta,
        Prefixes::Yotta,
    ];
    for p in prefixes {
        assert_eq!(Prefixes::from(i8::from(p)), p);
    }
}

#[test]
fn unmapped_prefix_exponent_is_undefined() {
    assert_eq!(Prefixes::from(5), Prefixes::Undefined);
    assert_eq!(Prefixes::from(-100), Prefixes::Undefined);
    assert_eq!(i8::from(Prefixes::Undefined), 0x7F);
}

#[test]
fn unit_codes_round_trip() {
    let units = [
        Units::NormLiter,
        Units::StandardLiter,
        Units::LiterLiquid,
        Units::Gram,
        Units::Pascal,
        Units::Bar,
        Units::MeterH20,
        Units::InchH20,
    ];
    for u in units {
        assert_eq!(Units::from(u8::from(u)), u);
    }
    assert_eq!(Units::from(7), Units::Undefined);
    assert_eq!(u8::from(Units::Undefined), 0xFF);
}

#[test]
fn timebase_codes_round_trip() {
    let bases = [
        TimeBases::NoTimeBase,
        TimeBases::Microsecond,
        TimeBases::Milisecond,
        TimeBases::Second,
        TimeBases::Minute,
        TimeBases::Hour,
        TimeBases::Day,
    ];
    for t in bases {
        assert_eq!(TimeBases::from(u8::from(t)), t);
    }
    assert_eq!(TimeBases::from(9), TimeBases::Undefined);
    assert_eq!(u8::from(TimeBases::Undefined), 0xFF);
}

#[test]
fn version_payload_splits_into_record() {
    let v = Version::from_payload(&[1, 2, 0, 3, 4, 5, 6]).unwrap();
    let expected = Version {
        firmware_major: 1,
        firmware_minor: 2,
        debug: false,
        hardware_major: 3,
        hardware_minor: 4,
        protocol_major: 5,
        protocol_minor: 6,
    };
    assert_eq!(v, expected);
}

#[test]
fn version_debug_flag_is_any_nonzero_byte() {
    let v = Version::from_payload(&[1, 2, 7, 3, 4, 5, 6]).unwrap();
    assert!(v.debug);
}

#[test]
fn short_version_payload_fails() {
    assert_eq!(
        Version::from_payload(&[1, 2, 0]),
        Err(TranslationError::NotEnoughData(7, 3))
    );
}
