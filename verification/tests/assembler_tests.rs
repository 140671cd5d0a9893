use sfc_core::assembler::AssemblerStep;
use sfc_core::assembler::FrameAssembler;
use sfc_core::frame::decode;
use sfc_core::frame::FrameError;

// The same inbound frame as in the decoder tests.
const GOOD_WIRE: [u8; 9] = [0x7E, 0x00, 0x43, 0x00, 0x02, 0x64, 0xA0, 0xB6, 0x7E];

fn assemble(chunks: &[&[u8]]) -> Result<Vec<u8>, FrameError> {
    let mut assembler = FrameAssembler::new();
    for (i, chunk) in chunks.iter().enumerate() {
        match assembler.push_chunk(chunk)? {
            AssemblerStep::Complete => {
                assert_eq!(i, chunks.len() - 1, "completed before the last chunk");
            }
            AssemblerStep::NeedMore => {
                assert!(i < chunks.len() - 1, "never completed");
            }
        }
    }
    Ok(assembler.into_bytes())
}

#[test]
fn one_chunk_assembles_whole_frame() {
    let bytes = assemble(&[&GOOD_WIRE]).unwrap();
    assert_eq!(bytes.as_slice(), &GOOD_WIRE);
    assert!(decode(&bytes).is_ok());
}

#[test]
fn three_chunks_assemble_the_same_frame() {
    let bytes = assemble(&[&GOOD_WIRE[..1], &GOOD_WIRE[1..5], &GOOD_WIRE[5..]]).unwrap();
    assert_eq!(bytes.as_slice(), &GOOD_WIRE);
}

#[test]
fn split_inside_escape_sequence_assembles_the_same_frame() {
    // payload [0x7E] crosses the wire as the escape pair 0x7D 0x5E; the
    // split lands between the two bytes of the pair
    let wire = [0x7E, 0x00, 0x43, 0x00, 0x01, 0x7D, 0x5E, 0x3D, 0x7E];
    let chunked = assemble(&[&wire[..6], &wire[6..8], &wire[8..]]).unwrap();
    let whole = assemble(&[&wire]).unwrap();
    assert_eq!(chunked, whole);
    assert_eq!(
        decode(&chunked).unwrap().into_data().as_slice(),
        decode(&whole).unwrap().into_data().as_slice()
    );
}

#[test]
fn byte_by_byte_assembly_matches_one_chunk() {
    let mut assembler = FrameAssembler::new();
    for (i, b) in GOOD_WIRE.iter().enumerate() {
        let step = assembler.push_chunk(&[*b]).unwrap();
        if i == GOOD_WIRE.len() - 1 {
            assert_eq!(step, AssemblerStep::Complete);
        } else {
            assert_eq!(step, AssemblerStep::NeedMore);
        }
    }
    assert_eq!(assembler.into_bytes().as_slice(), &GOOD_WIRE);
}

#[test]
fn opening_delimiter_alone_does_not_complete() {
    let mut assembler = FrameAssembler::new();
    assert_eq!(assembler.push_chunk(&[0x7E]).unwrap(), AssemblerStep::NeedMore);
}

#[test]
fn two_bare_delimiters_do_not_complete() {
    // an open and a close with nothing between is not a frame: at least
    // one byte of content must stand between the delimiters
    let mut assembler = FrameAssembler::new();
    assert_eq!(assembler.push_chunk(&[0x7E]).unwrap(), AssemblerStep::NeedMore);
    assert_eq!(assembler.push_chunk(&[0x7E]).unwrap(), AssemblerStep::NeedMore);
}

#[test]
fn zero_payload_frame_completes() {
    // checksum over [0, 0x43, 0, 0] = 0x43 -> inverted 0xBC
    let wire = [0x7E, 0x00, 0x43, 0x00, 0x00, 0xBC, 0x7E];
    let bytes = assemble(&[&wire[..1], &wire[1..]]).unwrap();
    assert_eq!(bytes.as_slice(), &wire);
    assert!(decode(&bytes).unwrap().is_ok());
}

#[test]
fn empty_read_is_a_capacity_failure() {
    let mut assembler = FrameAssembler::new();
    assert_eq!(
        assembler.push_chunk(&[]),
        Err(FrameError::CapacityExceeded)
    );
}

#[test]
fn stream_without_terminator_hits_the_buffer_bound() {
    let mut assembler = FrameAssembler::new();
    let chunk = [0x00_u8; 100];
    for _ in 0..5 {
        assert_eq!(
            assembler.push_chunk(&chunk).unwrap(),
            AssemblerStep::NeedMore
        );
    }
    // 500 bytes are in; 100 more would exceed the 522-byte bound
    assert_eq!(
        assembler.push_chunk(&chunk),
        Err(FrameError::CapacityExceeded)
    );
    assert_eq!(assembler.len(), 500);
}

#[test]
fn exactly_full_buffer_is_still_accepted() {
    let mut assembler = FrameAssembler::new();
    assert_eq!(
        assembler.push_chunk(&[0x00; 522]).unwrap(),
        AssemblerStep::NeedMore
    );
    assert_eq!(assembler.len(), 522);
    assert_eq!(
        assembler.push_chunk(&[0x7E]),
        Err(FrameError::CapacityExceeded)
    );
}
