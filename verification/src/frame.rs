//! Outbound (MOSI) frame construction and inbound (MISO) frame parsing
//! and validation.
//!
//! Decoding is two-phase: the structural phase strips the delimiters,
//! destuffs the interior and splits it by the declared length; the
//! semantic phase checks the checksum and classifies the device's status
//! byte.  The two phases stay separable so a caller can tell a garbled
//! transmission apart from a device-reported error.

use vstd::prelude::*;

use crate::buffers;
use crate::shdlc::TranslationError;
use crate::shdlc::calculate_check_sum;
use crate::shdlc::checksum_spec;
use crate::shdlc::destuff_seq;
use crate::shdlc::from_shdlc;
use crate::shdlc::lemma_destuff_stuff;
use crate::shdlc::sum_mod_256;
use crate::shdlc::to_shdlc;
use crate::shdlc::wire_encoding;
use crate::status::StateResponseError;
use crate::status::status_of_code;

verus! {

/// A failure while decoding an inbound wire frame.
#[derive(Debug, Clone, Copy, PartialEq, Eq, Structural)]
pub enum FrameError {
    /// The interior could not be destuffed.
    Shdlc(TranslationError),
    /// The stream or its destuffed interior had fewer bytes than the
    /// frame layout requires: bytes needed first, bytes found second.
    TooShort(usize, usize),
    /// The received checksum (first) differed from the one recomputed
    /// locally (second).
    InvalidChecksum(u8, u8),
    /// The device reported a non-zero status byte, classified here.
    Status(StateResponseError),
    /// A read returned no bytes, or accepting it would overflow the
    /// bounded accumulation buffer.
    CapacityExceeded,
}

/// The structural phase of decoding a delimited wire stream: strip the
/// two delimiter bytes, destuff the interior, and check that it is long
/// enough for the four-byte header, the declared payload and the trailing
/// checksum byte.  Yields the destuffed interior.
pub open spec fn structural_decode(wire: Seq<u8>) -> Result<Seq<u8>, FrameError> {
    if wire.len() < 2 {
        Err(FrameError::TooShort(2, wire.len() as usize))
    } else {
        match destuff_seq(wire.subrange(1, wire.len() - 1), 262) {
            Err(e) => Err(FrameError::Shdlc(e)),
            Ok(d) => if d.len() < 5 {
                Err(FrameError::TooShort(5, d.len() as usize))
            } else if d.len() < 5 + d[3] {
                Err(FrameError::TooShort((5 + d[3]) as usize, d.len() as usize))
            } else {
                Ok(d)
            },
        }
    }
}

/// The semantic phase of decoding, over a structurally valid destuffed
/// interior: the trailing checksum byte must match the checksum of
/// everything before it, and only then is a non-zero status byte
/// classified.  A checksum mismatch is reported regardless of status, so
/// corruption is never mistaken for a device-reported error.
pub open spec fn semantic_check(d: Seq<u8>) -> Result<(), FrameError>
    recommends
        d.len() >= 5 + d[3],
{
    if d[4 + d[3]] != checksum_spec(d.take(4 + d[3])) {
        Err(FrameError::InvalidChecksum(d[4 + d[3]], checksum_spec(d.take(4 + d[3]))))
    } else if d[2] != 0 {
        Err(FrameError::Status(status_of_code(d[2])))
    } else {
        Ok(())
    }
}

/// A representation of a SHDLC Master Out Slave In frame: the slave
/// address, the command byte, a payload of at most 255 bytes, and the
/// derived wire bytes, stuffed, checksummed and delimited, ready to be
/// written to the device.
pub struct MOSIFrame {
    address: u8,
    command: u8,
    data_length: u8,
    raw: arrayvec::ArrayVec<u8, 522>,
    checksum: u8,
    payload: Ghost<Seq<u8>>,
}

impl MOSIFrame {
    /// The slave address the frame is addressed to.
    pub closed spec fn spec_address(self) -> u8 {
        self.address
    }

    /// The command byte of the frame.
    pub closed spec fn spec_command(self) -> u8 {
        self.command
    }

    /// The declared payload length, as it appears in the header.
    pub closed spec fn spec_data_length(self) -> u8 {
        self.data_length
    }

    /// The payload carried by the frame, before stuffing.
    pub closed spec fn spec_payload(self) -> Seq<u8> {
        self.payload@
    }

    /// The stored checksum byte.
    pub closed spec fn spec_checksum(self) -> u8 {
        self.checksum
    }

    /// The frame's wire bytes.
    pub closed spec fn spec_wire(self) -> Seq<u8> {
        buffers::wire_bytes(self.raw)
    }

    /// The unstuffed region the outbound checksum covers: address,
    /// command, length byte, payload.
    pub open spec fn checksum_region(self) -> Seq<u8> {
        seq![self.spec_address(), self.spec_command(), self.spec_data_length()]
            + self.spec_payload()
    }

    /// A well-formed frame: the length byte counts the payload before
    /// stuffing, the checksum covers the unstuffed region, and the wire
    /// bytes are that region's full wire image.
    pub open spec fn wf(self) -> bool {
        &&& self.spec_payload().len() <= 255
        &&& self.spec_data_length() == self.spec_payload().len()
        &&& self.spec_checksum() == checksum_spec(self.checksum_region())
        &&& self.spec_wire() == wire_encoding(self.checksum_region())
    }

    /// Constructs a MOSI frame from the address, command and payload,
    /// stuffing and delimiting the wire bytes.  Fails exactly when the
    /// payload exceeds 255 bytes, the most the one-byte length field can
    /// declare.
    pub fn new(address: u8, command: u8, data: &[u8]) -> (r: Result<Self, TranslationError>)
        ensures
            match r {
                Ok(f) => {
                    &&& data@.len() <= 255
                    &&& f.wf()
                    &&& f.spec_address() == address
                    &&& f.spec_command() == command
                    &&& f.spec_payload() == data@
                },
                Err(e) => data@.len() > 255 && e == TranslationError::DataTooLarge,
            },
    {
        if data.len() > 255 {
            return Err(TranslationError::DataTooLarge);
        }

        let data_length: u8 = data.len() as u8;
        let mut pre: Vec<u8> = Vec::new();
        pre.push(address);
        pre.push(command);
        pre.push(data_length);

        let mut i: usize = 0;
        while i < data.len()
            invariant
                i <= data@.len(),
                pre@ == seq![address, command, data_length] + data@.take(i as int),
            decreases data@.len() - i,
        {
            pre.push(data[i]);
            proof {
                assert(data@.take(i + 1) =~= data@.take(i as int).push(data@[i as int]));
                assert(pre@ =~= seq![address, command, data_length] + data@.take(i + 1));
            }
            i = i + 1;
        }
        proof {
            assert(data@.take(data@.len() as int) =~= data@);
        }

        let checksum = calculate_check_sum(pre.as_slice());
        let raw = match to_shdlc(pre.as_slice()) {
            Ok(v) => v,
            Err(e) => {
                // a three-byte header plus at most 255 payload bytes
                // always fits the stuffer's 258-byte bound
                assert(false);
                return Err(e);
            },
        };

        let frame = MOSIFrame {
            address,
            command,
            data_length,
            raw,
            checksum,
            payload: Ghost(data@),
        };
        proof {
            assert(frame.checksum_region() =~= pre@);
        }
        Ok(frame)
    }

    /// Returns the slave address of the command.
    pub fn get_address(&self) -> (r: u8)
        ensures
            r == self.spec_address(),
    {
        self.address
    }

    /// Returns the command byte.
    pub fn get_command_number(&self) -> (r: u8)
        ensures
            r == self.spec_command(),
    {
        self.command
    }

    /// Returns the length of the payload before byte stuffing.
    pub fn get_data_length(&self) -> (r: u8)
        ensures
            r == self.spec_data_length(),
    {
        self.data_length
    }

    /// Returns the checksum of the frame.
    pub fn check_sum(&self) -> (r: u8)
        ensures
            r == self.spec_checksum(),
    {
        self.checksum
    }

    /// Returns the underlying wire bytes, ready to be written to the
    /// device.
    pub fn into_raw(self) -> (r: arrayvec::ArrayVec<u8, 522>)
        ensures
            buffers::wire_bytes(r) == self.spec_wire(),
    {
        self.raw
    }

    /// Destuffs the wire bytes back and recomputes the checksum over
    /// everything but the trailing checksum byte; true exactly when it
    /// matches the stored checksum.  On a well-formed frame that is
    /// always the case.
    pub fn validate_checksum(&self) -> (r: bool)
        requires
            self.wf(),
        ensures
            r == (self.spec_checksum() == checksum_spec(self.checksum_region())),
            r,
    {
        proof {
            lemma_destuff_stuff(
                self.checksum_region().push(checksum_spec(self.checksum_region())),
                262,
            );
            assert(self.spec_wire().subrange(1, self.spec_wire().len() - 1)
                =~= crate::shdlc::stuff_seq(
                    self.checksum_region().push(checksum_spec(self.checksum_region())),
                ));
        }
        let w = buffers::wire_as_slice(&self.raw);
        let decoded = match from_shdlc(w) {
            Ok(v) => v,
            Err(_) => {
                // the wire bytes of a well-formed frame always destuff
                assert(false);
                return false;
            },
        };
        let d = buffers::body_as_slice(&decoded);
        let ghost region = self.checksum_region();
        proof {
            assert(d@ == region.push(checksum_spec(region)));
            assert(d@.len() == region.len() + 1);
        }

        let mut acc: u8 = 0;
        let mut i: usize = 0;
        while i < d.len() - 1
            invariant
                d@.len() >= 1,
                i <= d@.len() - 1,
                acc == sum_mod_256(d@.take(i as int)),
            decreases d@.len() - 1 - i,
        {
            proof {
                assert(d@.take(i + 1).drop_last() =~= d@.take(i as int));
            }
            acc = ((acc as u16 + d[i] as u16) % 256) as u8;
            i = i + 1;
        }
        let ck = 255 - acc;
        proof {
            assert(d@.take(d@.len() - 1) =~= region);
        }
        ck == self.checksum
    }
}

/// The Master In Slave Out frame: the device's response.  Holds the slave
/// address, the command byte, the status byte, the declared payload
/// length, the payload itself, and the trailing checksum byte.
#[derive(Debug)]
pub struct MISOFrame {
    address: u8,
    command: u8,
    state: u8,
    data_length: u8,
    data: arrayvec::ArrayVec<u8, 255>,
    checksum: u8,
}

/// True when the frame's fields are exactly the parts of the destuffed
/// interior `d`: address, command, status and length bytes in wire order,
/// then the declared number of payload bytes, then the checksum byte.
pub open spec fn frame_has_parts(f: MISOFrame, d: Seq<u8>) -> bool {
    &&& f.spec_address() == d[0]
    &&& f.spec_command() == d[1]
    &&& f.spec_state() == d[2]
    &&& f.spec_data_length() == d[3]
    &&& f.spec_data() == d.subrange(4, 4 + d[3])
    &&& f.spec_checksum() == d[4 + d[3]]
}

impl MISOFrame {
    /// The responding slave's address.
    pub closed spec fn spec_address(self) -> u8 {
        self.address
    }

    /// The command byte the response answers.
    pub closed spec fn spec_command(self) -> u8 {
        self.command
    }

    /// The device-reported status byte.
    pub closed spec fn spec_state(self) -> u8 {
        self.state
    }

    /// The declared payload length.
    pub closed spec fn spec_data_length(self) -> u8 {
        self.data_length
    }

    /// The payload bytes.
    pub closed spec fn spec_data(self) -> Seq<u8> {
        buffers::payload_bytes(self.data)
    }

    /// The received checksum byte.
    pub closed spec fn spec_checksum(self) -> u8 {
        self.checksum
    }

    /// The destuffed region the inbound checksum covers: address,
    /// command, status byte, length byte, payload.
    pub open spec fn checksum_region(self) -> Seq<u8> {
        seq![self.spec_address(), self.spec_command(), self.spec_state(), self.spec_data_length()]
            + self.spec_data()
    }

    /// A well-formed frame holds exactly as many payload bytes as its
    /// length byte declares.
    pub open spec fn wf(self) -> bool {
        self.spec_data().len() == self.spec_data_length()
    }

    /// Parses an inbound frame from a delimited wire byte stream: the
    /// structural phase of decoding.  Succeeds or fails independently of
    /// the checksum and status byte, which `validate` checks.
    pub fn from_bytes(data: &[u8]) -> (r: Result<Self, FrameError>)
        ensures
            match r {
                Ok(f) => {
                    &&& structural_decode(data@) matches Ok(d)
                    &&& frame_has_parts(f, structural_decode(data@)->Ok_0)
                    &&& f.wf()
                },
                Err(e) => structural_decode(data@) == Err::<Seq<u8>, FrameError>(e),
            },
    {
        if data.len() < 2 {
            return Err(FrameError::TooShort(2, data.len()));
        }
        let decoded = match from_shdlc(data) {
            Ok(v) => v,
            Err(e) => {
                return Err(FrameError::Shdlc(e));
            },
        };
        let d = buffers::body_as_slice(&decoded);
        if d.len() < 5 {
            return Err(FrameError::TooShort(5, d.len()));
        }
        let len: usize = d[3] as usize;
        if d.len() < 5 + len {
            return Err(FrameError::TooShort(5 + len, d.len()));
        }

        let mut pay: Vec<u8> = Vec::new();
        let mut i: usize = 0;
        while i < len
            invariant
                i <= len,
                len <= 255,
                len + 5 <= d@.len(),
                pay@ == d@.subrange(4, 4 + i),
            decreases len - i,
        {
            pay.push(d[4 + i]);
            proof {
                assert(d@.subrange(4, 4 + i + 1) =~= d@.subrange(4, 4 + i).push(d@[4 + i]));
            }
            i = i + 1;
        }

        let frame = MISOFrame {
            address: d[0],
            command: d[1],
            state: d[2],
            data_length: d[3],
            data: buffers::payload_from_vec(&pay),
            checksum: d[4 + len],
        };
        Ok(frame)
    }

    /// Reads the status byte; true exactly when the device reported
    /// success.
    pub fn is_ok(&self) -> (r: bool)
        ensures
            r == (self.spec_state() == 0),
    {
        self.state == 0
    }

    /// Returns the status byte of the frame.
    pub fn get_state(&self) -> (r: u8)
        ensures
            r == self.spec_state(),
    {
        self.state
    }

    /// Returns the received checksum byte.
    pub fn get_checksum(&self) -> (r: u8)
        ensures
            r == self.spec_checksum(),
    {
        self.checksum
    }

    /// Recomputes the checksum over the frame's destuffed region:
    /// address, command, status, length, payload.
    pub fn calculate_check_sum(&self) -> (r: u8)
        ensures
            r == checksum_spec(self.checksum_region()),
    {
        let mut region: Vec<u8> = Vec::new();
        region.push(self.address);
        region.push(self.command);
        region.push(self.state);
        region.push(self.data_length);
        let d = buffers::payload_as_slice(&self.data);
        let mut i: usize = 0;
        while i < d.len()
            invariant
                i <= d@.len(),
                region@ == seq![self.spec_address(), self.spec_command(), self.spec_state(),
                    self.spec_data_length()] + d@.take(i as int),
            decreases d@.len() - i,
        {
            region.push(d[i]);
            proof {
                assert(d@.take(i + 1) =~= d@.take(i as int).push(d@[i as int]));
                assert(region@ =~= seq![self.spec_address(), self.spec_command(),
                    self.spec_state(), self.spec_data_length()] + d@.take(i + 1));
            }
            i = i + 1;
        }
        proof {
            assert(d@.take(d@.len() as int) =~= d@);
            assert(region@ =~= self.checksum_region());
        }
        calculate_check_sum(region.as_slice())
    }

    /// True exactly when the received checksum matches the recomputed
    /// one.
    pub fn validate_checksum(&self) -> (r: bool)
        ensures
            r == (self.spec_checksum() == checksum_spec(self.checksum_region())),
    {
        self.calculate_check_sum() == self.checksum
    }

    /// The semantic phase of decoding: reports a checksum mismatch with
    /// both the received and the recomputed value whenever one occurs,
    /// and otherwise classifies a non-zero status byte.  Both conditions
    /// are checked on every call; a bad checksum is never hidden behind a
    /// status failure nor the other way round.
    pub fn validate(&self) -> (r: Result<(), FrameError>)
        ensures
            match r {
                Ok(()) => self.spec_checksum() == checksum_spec(self.checksum_region())
                    && self.spec_state() == 0,
                Err(e) => (self.spec_checksum() != checksum_spec(self.checksum_region())
                    && e == FrameError::InvalidChecksum(
                        self.spec_checksum(),
                        checksum_spec(self.checksum_region()),
                    )) || (self.spec_checksum() == checksum_spec(self.checksum_region())
                    && self.spec_state() != 0
                    && e == FrameError::Status(status_of_code(self.spec_state()))),
            },
    {
        let calculated = self.calculate_check_sum();
        if self.checksum != calculated {
            return Err(FrameError::InvalidChecksum(self.checksum, calculated));
        }
        if self.state != 0 {
            return Err(FrameError::Status(StateResponseError::from(self.state)));
        }
        Ok(())
    }

    /// Turns the frame into its payload bytes.
    pub fn into_data(self) -> (r: arrayvec::ArrayVec<u8, 255>)
        ensures
            buffers::payload_bytes(r) == self.spec_data(),
    {
        self.data
    }
}

/// Assembles the wire bytes of an outbound command frame: header,
/// payload, checksum, stuffed and delimited.  Fails exactly when the
/// payload exceeds 255 bytes.
pub fn encode(address: u8, command: u8, payload: &[u8]) -> (r: Result<
    arrayvec::ArrayVec<u8, 522>,
    TranslationError,
>)
    ensures
        match r {
            Ok(v) => payload@.len() <= 255 && buffers::wire_bytes(v) == wire_encoding(
                seq![address, command, payload@.len() as u8] + payload@,
            ),
            Err(e) => payload@.len() > 255 && e == TranslationError::DataTooLarge,
        },
{
    match MOSIFrame::new(address, command, payload) {
        Ok(f) => Ok(f.into_raw()),
        Err(e) => Err(e),
    }
}

/// Decodes a delimited wire byte stream into a validated inbound frame:
/// the structural phase, then the semantic phase.  A structurally valid
/// frame with a checksum mismatch fails with `InvalidChecksum`; one whose
/// checksum matches but whose status byte is non-zero fails with the
/// classified `Status`.
pub fn decode(data: &[u8]) -> (r: Result<MISOFrame, FrameError>)
    ensures
        match r {
            Ok(f) => {
                &&& structural_decode(data@) matches Ok(d)
                &&& frame_has_parts(f, structural_decode(data@)->Ok_0)
                &&& f.wf()
                &&& semantic_check(structural_decode(data@)->Ok_0) == Ok::<(), FrameError>(())
            },
            Err(e) => match structural_decode(data@) {
                Err(e0) => e == e0,
                Ok(d) => semantic_check(d) == Err::<(), FrameError>(e),
            },
        },
{
    let frame = match MISOFrame::from_bytes(data) {
        Ok(f) => f,
        Err(e) => {
            return Err(e);
        },
    };
    let ghost d = structural_decode(data@)->Ok_0;
    proof {
        assert(frame.checksum_region() =~= d.take(4 + d[3]));
    }
    match frame.validate() {
        Ok(()) => Ok(frame),
        Err(e) => Err(e),
    }
}

} // verus!
