//! Byte stuffing, destuffing and the additive-XOR checksum of the SHDLC
//! wire protocol.
//!
//! Four reserved byte values carry protocol meaning on the wire and must
//! never appear literally inside a framed body.  The stuffer replaces each
//! of them with the escape byte followed by a fixed substitute; the
//! destuffer reverses the substitution.

use vstd::prelude::*;

verus! {

/// Marks the start and the end of every frame.
pub const START_STOP: u8 = 0x7E;
/// Substitute emitted after the escape byte for a literal `START_STOP`.
pub const START_SWAP: u8 = 0x5E;
/// Introduces every two-byte escape sequence.
pub const ESCAPE: u8 = 0x7D;
/// Substitute emitted after the escape byte for a literal `ESCAPE`.
pub const ESCAPE_SWAP: u8 = 0x5D;
/// Software flow-control byte, reserved on the wire.
pub const XON: u8 = 0x11;
/// Substitute emitted after the escape byte for a literal `XON`.
pub const XON_SWAP: u8 = 0x31;
/// Software flow-control byte, reserved on the wire.
pub const XOFF: u8 = 0x13;
/// Substitute emitted after the escape byte for a literal `XOFF`.
pub const XOFF_SWAP: u8 = 0x33;

/// True of the four byte values that must be escaped inside a frame body.
pub open spec fn is_reserved(b: u8) -> bool {
    b == START_STOP || b == ESCAPE || b == XON || b == XOFF
}

/// The substitute byte that follows the escape byte for a reserved value.
pub open spec fn swap_of(b: u8) -> u8 {
    if b == START_STOP {
        START_SWAP
    } else if b == ESCAPE {
        ESCAPE_SWAP
    } else if b == XON {
        XON_SWAP
    } else {
        XOFF_SWAP
    }
}

/// The reserved value restored for a substitute byte, if the substitute is
/// one of the four known ones.
pub open spec fn unswap(b: u8) -> Option<u8> {
    if b == START_SWAP {
        Some(START_STOP)
    } else if b == ESCAPE_SWAP {
        Some(ESCAPE)
    } else if b == XON_SWAP {
        Some(XON)
    } else if b == XOFF_SWAP {
        Some(XOFF)
    } else {
        None
    }
}

/// The wire image of a single body byte: reserved values become a two-byte
/// escape sequence, all others pass through unchanged.
pub open spec fn stuff_byte(b: u8) -> Seq<u8> {
    if is_reserved(b) {
        seq![ESCAPE, swap_of(b)]
    } else {
        seq![b]
    }
}

/// The wire image of a whole body: each byte stuffed, in order.
pub open spec fn stuff_seq(s: Seq<u8>) -> Seq<u8>
    decreases s.len(),
{
    if s.len() == 0 {
        Seq::empty()
    } else {
        stuff_byte(s[0]) + stuff_seq(s.skip(1))
    }
}

/// Each type of error that can occur while translating to or from the
/// stuffed wire form.
#[derive(Debug, Clone, Copy, PartialEq, Eq, Structural)]
pub enum TranslationError {
    /// Too much data was supplied for the bounded frame body.
    DataTooLarge,
    /// Fewer bytes were found than a frame header declared: expected count
    /// first, found count second.
    NotEnoughData(u8, u8),
    /// The escape byte was not followed by one of the four known
    /// substitutes; carries the offending byte, or zero when the escape
    /// byte ended the input.
    MissingEscapedData(u8),
    /// The frame delimiter byte appeared unescaped inside the data.
    FrameEndInData,
}

/// What destuffing a stuffed region yields, scanning left to right with at
/// most `room` output bytes: the restored bytes, or the first error met.
pub open spec fn destuff_seq(s: Seq<u8>, room: nat) -> Result<Seq<u8>, TranslationError>
    decreases s.len(),
{
    if s.len() == 0 {
        Ok(Seq::empty())
    } else if s[0] == ESCAPE {
        if s.len() == 1 {
            Err(TranslationError::MissingEscapedData(0))
        } else {
            match unswap(s[1]) {
                Some(orig) => {
                    if room == 0 {
                        Err(TranslationError::DataTooLarge)
                    } else {
                        match destuff_seq(s.skip(2), (room - 1) as nat) {
                            Ok(rest) => Ok(seq![orig] + rest),
                            Err(e) => Err(e),
                        }
                    }
                },
                None => Err(TranslationError::MissingEscapedData(s[1])),
            }
        }
    } else if s[0] == START_STOP {
        Err(TranslationError::FrameEndInData)
    } else {
        if room == 0 {
            Err(TranslationError::DataTooLarge)
        } else {
            match destuff_seq(s.skip(1), (room - 1) as nat) {
                Ok(rest) => Ok(seq![s[0]] + rest),
                Err(e) => Err(e),
            }
        }
    }
}

/// `r` with `prefix` prepended to its bytes when it succeeded, `r`'s error
/// otherwise.
pub open spec fn destuff_prepend(
    prefix: Seq<u8>,
    r: Result<Seq<u8>, TranslationError>,
) -> Result<Seq<u8>, TranslationError> {
    match r {
        Ok(s) => Ok(prefix + s),
        Err(e) => Err(e),
    }
}

pub proof fn lemma_destuff_prepend_assoc(a: Seq<u8>, b: Seq<u8>, r: Result<Seq<u8>, TranslationError>)
    ensures
        destuff_prepend(a, destuff_prepend(b, r)) == destuff_prepend(a + b, r),
{
    match r {
        Ok(s) => {
            assert(a + (b + s) =~= (a + b) + s);
        },
        Err(_) => {},
    }
}

/// Stuffing a sequence extended by one byte appends that byte's wire image.
pub proof fn lemma_stuff_snoc(s: Seq<u8>, b: u8)
    ensures
        stuff_seq(s.push(b)) == stuff_seq(s) + stuff_byte(b),
    decreases s.len(),
{
    if s.len() == 0 {
        assert(s.push(b)[0] == b);
        assert(s.push(b).skip(1) =~= Seq::<u8>::empty());
        assert(stuff_seq(s.push(b)) == stuff_byte(b) + stuff_seq(Seq::<u8>::empty()));
        assert(stuff_byte(b) + Seq::<u8>::empty() =~= stuff_byte(b));
        assert(stuff_seq(s) + stuff_byte(b) =~= stuff_byte(b));
    } else {
        lemma_stuff_snoc(s.skip(1), b);
        assert(s.push(b).skip(1) =~= s.skip(1).push(b));
        assert(stuff_seq(s.push(b)) =~= stuff_seq(s) + stuff_byte(b));
    }
}

/// Stuffing never drops or invents bytes: the wire image is at least as
/// long as the body and at most twice as long.
pub proof fn lemma_stuff_len(s: Seq<u8>)
    ensures
        s.len() <= stuff_seq(s).len() <= 2 * s.len(),
    decreases s.len(),
{
    if s.len() > 0 {
        lemma_stuff_len(s.skip(1));
    }
}

/// The frame delimiter never appears in a stuffed body: every reserved
/// byte leaves as an escape pair, and neither half of a pair is the
/// delimiter.  This is what lets a frame boundary be recognized without
/// parsing.
pub proof fn lemma_stuff_no_delimiter(s: Seq<u8>)
    ensures
        forall|i: int| 0 <= i < stuff_seq(s).len() ==> stuff_seq(s)[i] != START_STOP,
    decreases s.len(),
{
    if s.len() > 0 {
        lemma_stuff_no_delimiter(s.skip(1));
        assert forall|i: int| 0 <= i < stuff_seq(s).len() implies stuff_seq(s)[i] != START_STOP by {
            if i >= stuff_byte(s[0]).len() {
                assert(stuff_seq(s)[i] == stuff_seq(s.skip(1))[i - stuff_byte(s[0]).len()]);
            }
        }
    }
}

/// Every law of the codec rests on this round trip: destuffing undoes
/// stuffing, for payloads of any length and any byte values, as long as
/// the output room suffices.
pub proof fn lemma_destuff_stuff(s: Seq<u8>, room: nat)
    requires
        s.len() <= room,
    ensures
        destuff_seq(stuff_seq(s), room) == Ok::<Seq<u8>, TranslationError>(s),
    decreases s.len(),
{
    if s.len() == 0 {
        assert(destuff_seq(stuff_seq(s), room) == Ok::<Seq<u8>, TranslationError>(Seq::empty()));
        assert(s =~= Seq::<u8>::empty());
    } else {
        let b = s[0];
        let rest = s.skip(1);
        let t = stuff_seq(s);
        lemma_destuff_stuff(rest, (room - 1) as nat);
        if is_reserved(b) {
            assert(t =~= seq![ESCAPE, swap_of(b)] + stuff_seq(rest));
            assert(t.skip(2) =~= stuff_seq(rest));
            assert(unswap(swap_of(b)) == Some(b));
            assert(destuff_seq(t, room) == Ok::<Seq<u8>, TranslationError>(seq![b] + rest));
        } else {
            assert(t =~= seq![b] + stuff_seq(rest));
            assert(t.skip(1) =~= stuff_seq(rest));
            assert(destuff_seq(t, room) == Ok::<Seq<u8>, TranslationError>(seq![b] + rest));
        }
        assert(seq![b] + rest =~= s);
    }
}

/// The running sum of a byte sequence, kept within one byte as the wire
/// checksum requires.
pub open spec fn sum_mod_256(s: Seq<u8>) -> u8
    decreases s.len(),
{
    if s.len() == 0 {
        0u8
    } else {
        ((sum_mod_256(s.drop_last()) + s.last()) % 256) as u8
    }
}

/// The SHDLC checksum of a byte sequence: the byte-wrapped sum with every
/// bit inverted.
pub open spec fn checksum_spec(s: Seq<u8>) -> u8 {
    (255 - sum_mod_256(s)) as u8
}

/// Calculates the SHDLC checksum of a byte slice.
pub fn calculate_check_sum(data: &[u8]) -> (ck: u8)
    ensures
        ck == checksum_spec(data@),
{
    let mut acc: u8 = 0;
    let mut i: usize = 0;
    while i < data.len()
        invariant
            i <= data@.len(),
            acc == sum_mod_256(data@.take(i as int)),
        decreases data@.len() - i,
    {
        proof {
            assert(data@.take(i + 1).drop_last() =~= data@.take(i as int));
            assert(data@.take(i + 1).last() == data@[i as int]);
        }
        acc = ((acc as u16 + data[i] as u16) % 256) as u8;
        i = i + 1;
    }
    proof {
        assert(data@.take(data@.len() as int) =~= data@);
    }
    255 - acc
}

/// The full wire image of an unstuffed frame body: the body and its
/// checksum stuffed together, wrapped in a delimiter on each side.
pub open spec fn wire_encoding(s: Seq<u8>) -> Seq<u8> {
    seq![START_STOP] + stuff_seq(s.push(checksum_spec(s))) + seq![START_STOP]
}

/// Translates an unstuffed frame body into its wire form: appends the
/// body's checksum, stuffs every reserved byte (the checksum included,
/// since it may itself equal one), and wraps the result in delimiters.
/// Fails exactly when the body exceeds the 258 bytes an outbound frame
/// can carry (a three-byte header plus a 255-byte payload).
pub fn to_shdlc(data: &[u8]) -> (r: Result<arrayvec::ArrayVec<u8, 522>, TranslationError>)
    ensures
        match r {
            Ok(v) => data@.len() <= 258 && crate::buffers::wire_bytes(v) == wire_encoding(data@),
            Err(e) => data@.len() > 258 && e == TranslationError::DataTooLarge,
        },
{
    if data.len() > 258 {
        return Err(TranslationError::DataTooLarge);
    }

    let ck = calculate_check_sum(data);
    let mut out: Vec<u8> = Vec::new();
    out.push(START_STOP);

    let mut i: usize = 0;
    while i < data.len()
        invariant
            i <= data@.len(),
            data@.len() <= 258,
            out@ == seq![START_STOP] + stuff_seq(data@.take(i as int)),
            out@.len() <= 1 + 2 * i,
        decreases data@.len() - i,
    {
        let b = data[i];
        proof {
            lemma_stuff_snoc(data@.take(i as int), b);
            assert(data@.take(i + 1).drop_last() =~= data@.take(i as int));
            assert(data@.take(i + 1) =~= data@.take(i as int).push(b));
        }
        if b == START_STOP {
            out.push(ESCAPE);
            out.push(START_SWAP);
        } else if b == ESCAPE {
            out.push(ESCAPE);
            out.push(ESCAPE_SWAP);
        } else if b == XON {
            out.push(ESCAPE);
            out.push(XON_SWAP);
        } else if b == XOFF {
            out.push(ESCAPE);
            out.push(XOFF_SWAP);
        } else {
            out.push(b);
        }
        proof {
            assert(out@ =~= seq![START_STOP] + stuff_seq(data@.take(i + 1)));
        }
        i = i + 1;
    }

    proof {
        assert(data@.take(data@.len() as int) =~= data@);
        lemma_stuff_snoc(data@, ck);
    }
    if ck == START_STOP {
        out.push(ESCAPE);
        out.push(START_SWAP);
    } else if ck == ESCAPE {
        out.push(ESCAPE);
        out.push(ESCAPE_SWAP);
    } else if ck == XON {
        out.push(ESCAPE);
        out.push(XON_SWAP);
    } else if ck == XOFF {
        out.push(ESCAPE);
        out.push(XOFF_SWAP);
    } else {
        out.push(ck);
    }
    out.push(START_STOP);
    proof {
        assert(out@ =~= wire_encoding(data@));
    }
    Ok(crate::buffers::wire_from_vec(&out))
}

/// Translates a delimited wire byte stream back into the unstuffed frame
/// body it carries.  The first and last byte are taken to be the frame
/// delimiters and are stripped without inspection; the interior is
/// destuffed left to right.  Fails with `MissingEscapedData` on an escape
/// byte followed by anything but the four known substitutes (or by
/// nothing), with `FrameEndInData` on an unescaped delimiter inside the
/// interior, and with `DataTooLarge` once more than 262 body bytes have
/// been restored.
pub fn from_shdlc(data: &[u8]) -> (r: Result<arrayvec::ArrayVec<u8, 262>, TranslationError>)
    requires
        data@.len() >= 2,
    ensures
        match r {
            Ok(v) => destuff_seq(data@.subrange(1, data@.len() - 1), 262)
                == Ok::<Seq<u8>, TranslationError>(crate::buffers::body_bytes(v)),
            Err(e) => destuff_seq(data@.subrange(1, data@.len() - 1), 262)
                == Err::<Seq<u8>, TranslationError>(e),
        },
{
    let n = data.len();
    let ghost interior = data@.subrange(1, n - 1);
    let mut out: Vec<u8> = Vec::new();
    let mut i: usize = 1;

    while i < n - 1
        invariant
            data@.len() == n,
            n >= 2,
            1 <= i <= n - 1,
            out@.len() <= 262,
            interior == data@.subrange(1, n - 1),
            destuff_seq(interior, 262) == destuff_prepend(
                out@,
                destuff_seq(data@.subrange(i as int, n - 1), (262 - out@.len()) as nat),
            ),
        decreases n - i,
    {
        let ghost tail = data@.subrange(i as int, n - 1);
        let ghost room = (262 - out@.len()) as nat;
        let b = data[i];
        if b == ESCAPE {
            if i + 1 == n - 1 {
                assert(destuff_seq(tail, room) == Err::<Seq<u8>, TranslationError>(
                    TranslationError::MissingEscapedData(0),
                ));
                return Err(TranslationError::MissingEscapedData(0));
            }
            let c = data[i + 1];
            let orig: u8 = if c == START_SWAP {
                START_STOP
            } else if c == ESCAPE_SWAP {
                ESCAPE
            } else if c == XON_SWAP {
                XON
            } else if c == XOFF_SWAP {
                XOFF
            } else {
                assert(unswap(c) is None);
                assert(destuff_seq(tail, room) == Err::<Seq<u8>, TranslationError>(
                    TranslationError::MissingEscapedData(c),
                ));
                return Err(TranslationError::MissingEscapedData(c));
            };
            assert(unswap(c) == Some(orig));
            if out.len() == 262 {
                assert(destuff_seq(tail, room) == Err::<Seq<u8>, TranslationError>(
                    TranslationError::DataTooLarge,
                ));
                return Err(TranslationError::DataTooLarge);
            }
            proof {
                assert(tail.skip(2) =~= data@.subrange(i + 2, n - 1));
                assert(destuff_seq(tail, room) == destuff_prepend(
                    seq![orig],
                    destuff_seq(data@.subrange(i + 2, n - 1), (room - 1) as nat),
                ));
                lemma_destuff_prepend_assoc(
                    out@,
                    seq![orig],
                    destuff_seq(data@.subrange(i + 2, n - 1), (room - 1) as nat),
                );
                assert(out@ + seq![orig] =~= out@.push(orig));
            }
            out.push(orig);
            i = i + 2;
        } else if b == START_STOP {
            assert(destuff_seq(tail, room) == Err::<Seq<u8>, TranslationError>(
                TranslationError::FrameEndInData,
            ));
            return Err(TranslationError::FrameEndInData);
        } else {
            if out.len() == 262 {
                assert(destuff_seq(tail, room) == Err::<Seq<u8>, TranslationError>(
                    TranslationError::DataTooLarge,
                ));
                return Err(TranslationError::DataTooLarge);
            }
            proof {
                assert(tail.skip(1) =~= data@.subrange(i + 1, n - 1));
                assert(destuff_seq(tail, room) == destuff_prepend(
                    seq![b],
                    destuff_seq(data@.subrange(i + 1, n - 1), (room - 1) as nat),
                ));
                lemma_destuff_prepend_assoc(
                    out@,
                    seq![b],
                    destuff_seq(data@.subrange(i + 1, n - 1), (room - 1) as nat),
                );
                assert(out@ + seq![b] =~= out@.push(b));
            }
            out.push(b);
            i = i + 1;
        }
    }

    proof {
        assert(data@.subrange(n - 1, n - 1) =~= Seq::<u8>::empty());
        assert(destuff_seq(data@.subrange(n - 1, n - 1), (262 - out@.len()) as nat)
            == Ok::<Seq<u8>, TranslationError>(Seq::empty()));
        assert(out@ + Seq::<u8>::empty() =~= out@);
    }
    Ok(crate::buffers::body_from_vec(&out))
}

} // verus!
