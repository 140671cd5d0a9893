use sfc_core::shdlc::calculate_check_sum;
use sfc_core::shdlc::from_shdlc;
use sfc_core::shdlc::to_shdlc;
use sfc_core::shdlc::TranslationError;

#[test]
fn from_guide() {
    let data = [0, 0x02, 0x43, 0x04, 0x64, 0xA0, 0x22, 0xFC];
    let ck = calculate_check_sum(&data);
    assert_eq!(ck, 0x94);
}

#[test]
fn one_two_three() {
    let data = [0, 1, 2, 3, 4, 5, 6];
    let ck = calculate_check_sum(&data);
    assert_eq!(ck, 234);
}

#[test]
fn check_sum_over_flow() {
    let data = [0, 200, 201, 202];
    let ck = calculate_check_sum(&data);
    assert_eq!(ck, 164);
}

#[test]
fn too_much_data_in() {
    let vec = vec![0_u8; 1000];
    let attempt = to_shdlc(&vec);
    assert_eq!(attempt, Err(TranslationError::DataTooLarge));
}

#[test]
fn too_much_data_out() {
    let vec = vec![0_u8; 1000];
    let attempt = from_shdlc(&vec);
    assert_eq!(attempt, Err(TranslationError::DataTooLarge));
}

#[test]
fn empty_checksum_is_all_ones() {
    assert_eq!(calculate_check_sum(&[]), 0xFF);
}

#[test]
fn stuffing_escapes_all_reserved_bytes() {
    let wire = to_shdlc(&[0x7E, 0x7D, 0x11, 0x13]).unwrap();
    // checksum over the body: 0x7E + 0x7D + 0x11 + 0x13 = 0x11F -> 0x1F -> inverted 0xE0
    assert_eq!(
        wire.as_slice(),
        &[0x7E, 0x7D, 0x5E, 0x7D, 0x5D, 0x7D, 0x31, 0x7D, 0x33, 0xE0, 0x7E]
    );
}

#[test]
fn stuffing_leaves_plain_bytes_alone() {
    let wire = to_shdlc(&[0x01, 0x02]).unwrap();
    // checksum: 3 -> inverted 0xFC
    assert_eq!(wire.as_slice(), &[0x7E, 0x01, 0x02, 0xFC, 0x7E]);
}

#[test]
fn stuffing_escapes_the_checksum_byte() {
    // body [0x81] sums to 0x81, whose inverted checksum is the reserved 0x7E
    let wire = to_shdlc(&[0x81]).unwrap();
    assert_eq!(wire.as_slice(), &[0x7E, 0x81, 0x7D, 0x5E, 0x7E]);
}

#[test]
fn round_trip_restores_every_byte_value() {
    // all 255 lengths are exercised implicitly by the library's proofs;
    // here every byte value, the four reserved ones included, crosses the
    // wire once
    let mut payload: Vec<u8> = Vec::new();
    for b in 0..=254_u8 {
        payload.push(b);
    }
    let wire = to_shdlc(&payload).unwrap();
    let body = from_shdlc(wire.as_slice()).unwrap();
    let ck = calculate_check_sum(&payload);
    assert_eq!(body.len(), payload.len() + 1);
    assert_eq!(&body.as_slice()[..payload.len()], payload.as_slice());
    assert_eq!(body.as_slice()[payload.len()], ck);
}

#[test]
fn round_trip_reserved_bytes_in_every_position() {
    let payload = [0x7E, 0x00, 0x7D, 0x11, 0xFF, 0x13, 0x7E];
    let wire = to_shdlc(&payload).unwrap();
    let body = from_shdlc(wire.as_slice()).unwrap();
    assert_eq!(&body.as_slice()[..payload.len()], &payload);
}

#[test]
fn round_trip_empty_payload() {
    let wire = to_shdlc(&[]).unwrap();
    assert_eq!(wire.as_slice(), &[0x7E, 0xFF, 0x7E]);
    let body = from_shdlc(wire.as_slice()).unwrap();
    assert_eq!(body.as_slice(), &[0xFF]);
}

#[test]
fn escape_before_unknown_byte_fails() {
    let attempt = from_shdlc(&[0x7E, 0x7D, 0x41, 0x7E]);
    assert_eq!(attempt, Err(TranslationError::MissingEscapedData(0x41)));
}

#[test]
fn escape_at_end_of_interior_fails() {
    let attempt = from_shdlc(&[0x7E, 0x00, 0x7D, 0x7E]);
    assert_eq!(attempt, Err(TranslationError::MissingEscapedData(0)));
}

#[test]
fn delimiter_inside_interior_fails() {
    let attempt = from_shdlc(&[0x7E, 0x41, 0x7E, 0x42, 0x7E]);
    assert_eq!(attempt, Err(TranslationError::FrameEndInData));
}

#[test]
fn boundary_size_payload_still_encodes() {
    let payload = [0x55_u8; 258];
    let wire = to_shdlc(&payload).unwrap();
    let body = from_shdlc(wire.as_slice()).unwrap();
    assert_eq!(&body.as_slice()[..258], &payload);
}

#[test]
fn one_byte_over_the_bound_fails() {
    let payload = [0x55_u8; 259];
    assert_eq!(to_shdlc(&payload), Err(TranslationError::DataTooLarge));
}
