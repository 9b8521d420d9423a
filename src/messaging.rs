//! The telemetry message and its wire format.
//!
//! A message is encoded compactly: each optional value is a tag byte (0 for none, 1 for
//! some), each unit-tagged value is its variant index (one byte, 0) followed by its
//! number, and each number is a 32-bit IEEE-754 float, its bit pattern little-endian.
//! The field comes first (X, Y, Z, temperature), then the position (x, y, z). The
//! encoding is then framed with COBS and a zero delimiter.
use vstd::prelude::*;

use crate::framing::{cobs_decode, cobs_decoded, cobs_encode, zero_free};

verus! {

/// A field value in µT, held as the bit pattern of a 32-bit float.
#[derive(Clone, Copy, Debug, PartialEq, Eq, Structural)]
pub enum MagneticValue {
    MicroTesla(u32),
}

/// A temperature in °C, held as the bit pattern of a 32-bit float.
#[derive(Clone, Copy, Debug, PartialEq, Eq, Structural)]
pub enum TempValue {
    Celsius(u32),
}

/// The reading that a message carries.
#[derive(Clone, Copy, Debug, PartialEq, Eq, Structural)]
pub struct WireField {
    pub x: Option<MagneticValue>,
    pub y: Option<MagneticValue>,
    pub z: Option<MagneticValue>,
    pub t: Option<TempValue>,
}

/// One reading and the position of the sensor that took it; the coordinates are bit
/// patterns of 32-bit floats.
#[derive(Clone, Copy, Debug)]
pub struct Message {
    pub field: WireField,
    pub position: (u32, u32, u32),
}

impl PartialEq for Message {
    fn eq(&self, other: &Message) -> (r: bool)
        ensures
            r == (*self == *other),
    {
        self.field == other.field && self.position.0 == other.position.0 && self.position.1
            == other.position.1 && self.position.2 == other.position.2
    }
}

impl vstd::std_specs::cmp::PartialEqSpecImpl for Message {
    open spec fn obeys_eq_spec() -> bool {
        true
    }

    open spec fn eq_spec(&self, other: &Message) -> bool {
        *self == *other
    }
}

/// Why a payload could not be decoded.
#[derive(Clone, Copy, Debug, PartialEq, Eq, Structural)]
pub enum PayloadError {
    /// The payload ended inside a value.
    UnexpectedEnd,
    /// An option tag was neither 0 nor 1.
    BadOption,
    /// A variant index was not 0.
    BadEnum,
}

/// The failures of the wire protocol.
#[derive(Clone, Copy, Debug, PartialEq, Eq, Structural)]
pub enum Error {
    /// The encoded message did not fit the frame buffer.
    FailedCOBSSerialization,
    /// The COBS frame was malformed.
    FailedCOBSDeserialization,
    /// The sink did not take every byte of the frame.
    FailedWrite,
    /// The block held no frame after its first delimiter.
    FailedRead,
    /// The payload of a well-formed frame could not be decoded.
    FailedParse(PayloadError),
}

/// The frame buffer's size: no frame is longer.
pub const FRAME_CAPACITY: usize = 64;

/// The four bytes of a float's bit pattern, least significant first.
pub open spec fn le_bytes(b: u32) -> Seq<u8> {
    seq![(b & 0xff) as u8, ((b >> 8u32) & 0xff) as u8, ((b >> 16u32) & 0xff) as u8, (b >> 24u32) as u8]
}

/// The bit pattern held by four bytes, least significant first.
pub open spec fn le_u32(s: Seq<u8>, i: int) -> u32 {
    (s[i] as u32) | ((s[i + 1] as u32) << 8u32) | ((s[i + 2] as u32) << 16u32) | ((s[i + 3] as u32)
        << 24u32)
}

pub open spec fn magnetic_bytes(v: Option<MagneticValue>) -> Seq<u8> {
    match v {
        None => seq![0u8],
        Some(MagneticValue::MicroTesla(b)) => seq![1u8, 0u8] + le_bytes(b),
    }
}

pub open spec fn temp_bytes(v: Option<TempValue>) -> Seq<u8> {
    match v {
        None => seq![0u8],
        Some(TempValue::Celsius(b)) => seq![1u8, 0u8] + le_bytes(b),
    }
}

/// The compact encoding of a message.
pub open spec fn payload_bytes(m: Message) -> Seq<u8> {
    magnetic_bytes(m.field.x) + (magnetic_bytes(m.field.y) + (magnetic_bytes(m.field.z) + (
    temp_bytes(m.field.t) + (le_bytes(m.position.0) + (le_bytes(m.position.1) + le_bytes(
        m.position.2,
    ))))))
}

/// Decodes a tagged float at the start of `t`: the float's bit pattern if there is one,
/// and the bytes after it; or why it cannot.
pub open spec fn parse_tagged(t: Seq<u8>) -> Result<(Option<u32>, Seq<u8>), PayloadError> {
    if t.len() == 0 {
        Err(PayloadError::UnexpectedEnd)
    } else if t[0] == 0 {
        Ok((None, t.subrange(1, t.len() as int)))
    } else if t[0] != 1 {
        Err(PayloadError::BadOption)
    } else if t.len() < 2 {
        Err(PayloadError::UnexpectedEnd)
    } else if t[1] != 0 {
        Err(PayloadError::BadEnum)
    } else if t.len() < 6 {
        Err(PayloadError::UnexpectedEnd)
    } else {
        Ok((Some(le_u32(t, 2)), t.subrange(6, t.len() as int)))
    }
}

/// Decodes a float at the start of `t`, and the bytes after it.
pub open spec fn parse_float(t: Seq<u8>) -> Result<(u32, Seq<u8>), PayloadError> {
    if t.len() < 4 {
        Err(PayloadError::UnexpectedEnd)
    } else {
        Ok((le_u32(t, 0), t.subrange(4, t.len() as int)))
    }
}

pub open spec fn as_magnetic(b: Option<u32>) -> Option<MagneticValue> {
    match b {
        Some(b) => Some(MagneticValue::MicroTesla(b)),
        None => None,
    }
}

pub open spec fn as_temp(b: Option<u32>) -> Option<TempValue> {
    match b {
        Some(b) => Some(TempValue::Celsius(b)),
        None => None,
    }
}

/// The message at the start of `s`, the bytes after it being ignored, or the first fault.
pub open spec fn payload_decoded(s: Seq<u8>) -> Result<Message, PayloadError> {
    match parse_tagged(s) {
        Err(e) => Err(e),
        Ok((x, s)) => match parse_tagged(s) {
            Err(e) => Err(e),
            Ok((y, s)) => match parse_tagged(s) {
                Err(e) => Err(e),
                Ok((z, s)) => match parse_tagged(s) {
                    Err(e) => Err(e),
                    Ok((t, s)) => match parse_float(s) {
                        Err(e) => Err(e),
                        Ok((px, s)) => match parse_float(s) {
                            Err(e) => Err(e),
                            Ok((py, s)) => match parse_float(s) {
                                Err(e) => Err(e),
                                Ok((pz, _)) => Ok(
                                    Message {
                                        field: WireField {
                                            x: as_magnetic(x),
                                            y: as_magnetic(y),
                                            z: as_magnetic(z),
                                            t: as_temp(t),
                                        },
                                        position: (px, py, pz),
                                    },
                                ),
                            },
                        },
                    },
                },
            },
        },
    }
}

/// Whether `f` is a frame of `m`: the COBS encoding of `m`'s payload and a zero byte.
pub open spec fn is_frame_of(f: Seq<u8>, m: Message) -> bool {
    &&& f.len() >= 1
    &&& f.last() == 0u8
    &&& zero_free(f.drop_last())
    &&& cobs_decoded(f.drop_last()) == Some(payload_bytes(m))
}

/// The length of the zero-free run of `s` that starts at `i`.
pub open spec fn run_len(s: Seq<u8>, i: int) -> int
    decreases s.len() - i,
{
    if i >= s.len() || s[i] == 0 {
        0
    } else {
        1 + run_len(s, i + 1)
    }
}

/// What a block read from the link yields. The bytes up to its first zero are the tail of
/// an earlier frame and are skipped; the zero-free run after that zero is decoded as a
/// COBS frame, and its payload as a message.
pub open spec fn block_decoded(b: Seq<u8>) -> Result<Message, Error> {
    let first = run_len(b, 0);
    if first >= b.len() {
        Err(Error::FailedRead)
    } else {
        let start = first + 1;
        let chunk = b.subrange(start, start + run_len(b, start));
        match cobs_decoded(chunk) {
            None => Err(Error::FailedCOBSDeserialization),
            Some(p) => match payload_decoded(p) {
                Err(e) => Err(Error::FailedParse(e)),
                Ok(m) => Ok(m),
            },
        }
    }
}

} // verus!

verus! {

fn push_le(v: &mut Vec<u8>, b: u32)
    ensures
        final(v)@ == old(v)@ + le_bytes(b),
{
    v.push((b & 0xff) as u8);
    v.push(((b >> 8u32) & 0xff) as u8);
    v.push(((b >> 16u32) & 0xff) as u8);
    v.push((b >> 24u32) as u8);
    assert(final(v)@ =~= old(v)@ + le_bytes(b));
}

fn push_tagged(v: &mut Vec<u8>, b: Option<u32>)
    ensures
        final(v)@ == old(v)@ + (match b {
            None => seq![0u8],
            Some(b) => seq![1u8, 0u8] + le_bytes(b),
        }),
{
    match b {
        None => {
            v.push(0u8);
            assert(final(v)@ =~= old(v)@ + seq![0u8]);
        },
        Some(b) => {
            v.push(1u8);
            v.push(0u8);
            push_le(v, b);
            assert(final(v)@ =~= old(v)@ + (seq![1u8, 0u8] + le_bytes(b)));
        },
    }
}

fn read_le(s: &[u8], i: usize) -> (r: u32)
    requires
        i + 4 <= s@.len(),
    ensures
        r == le_u32(s@, i as int),
{
    (s[i] as u32) | ((s[i + 1] as u32) << 8u32) | ((s[i + 2] as u32) << 16u32) | ((s[i + 3] as u32)
        << 24u32)
}

fn take_tagged(s: &[u8], i: usize) -> (r: Result<(Option<u32>, usize), PayloadError>)
    requires
        i <= s@.len(),
    ensures
        match parse_tagged(s@.subrange(i as int, s@.len() as int)) {
            Ok((v, rest)) => r matches Ok((w, j)) && w == v && j <= s@.len() && rest == s@.subrange(
                j as int,
                s@.len() as int,
            ),
            Err(e) => r == Err::<(Option<u32>, usize), PayloadError>(e),
        },
{
    if i >= s.len() {
        Err(PayloadError::UnexpectedEnd)
    } else if s[i] == 0 {
        assert(s@.subrange(i as int, s@.len() as int).subrange(1, s@.len() - i) =~= s@.subrange(
            i + 1,
            s@.len() as int,
        ));
        Ok((None, i + 1))
    } else if s[i] != 1 {
        Err(PayloadError::BadOption)
    } else if i + 1 >= s.len() {
        Err(PayloadError::UnexpectedEnd)
    } else if s[i + 1] != 0 {
        Err(PayloadError::BadEnum)
    } else if s.len() - i < 6 {
        Err(PayloadError::UnexpectedEnd)
    } else {
        let b = read_le(s, i + 2);
        assert(le_u32(s@, i + 2) == le_u32(s@.subrange(i as int, s@.len() as int), 2));
        assert(s@.subrange(i as int, s@.len() as int).subrange(6, s@.len() - i) =~= s@.subrange(
            i + 6,
            s@.len() as int,
        ));
        Ok((Some(b), i + 6))
    }
}

fn take_float(s: &[u8], i: usize) -> (r: Result<(u32, usize), PayloadError>)
    requires
        i <= s@.len(),
    ensures
        match parse_float(s@.subrange(i as int, s@.len() as int)) {
            Ok((v, rest)) => r matches Ok((w, j)) && w == v && j <= s@.len() && rest == s@.subrange(
                j as int,
                s@.len() as int,
            ),
            Err(e) => r == Err::<(u32, usize), PayloadError>(e),
        },
{
    if s.len() - i < 4 {
        Err(PayloadError::UnexpectedEnd)
    } else {
        let b = read_le(s, i);
        assert(le_u32(s@, i as int) == le_u32(s@.subrange(i as int, s@.len() as int), 0));
        assert(s@.subrange(i as int, s@.len() as int).subrange(4, s@.len() - i) =~= s@.subrange(
            i + 4,
            s@.len() as int,
        ));
        Ok((b, i + 4))
    }
}

fn magnetic(b: Option<u32>) -> (r: Option<MagneticValue>)
    ensures
        r == as_magnetic(b),
{
    match b {
        Some(b) => Some(MagneticValue::MicroTesla(b)),
        None => None,
    }
}

fn bits_of_magnetic(v: Option<MagneticValue>) -> (r: Option<u32>)
    ensures
        as_magnetic(r) == v,
{
    match v {
        Some(MagneticValue::MicroTesla(b)) => Some(b),
        None => None,
    }
}

fn bits_of_temp(v: Option<TempValue>) -> (r: Option<u32>)
    ensures
        as_temp(r) == v,
{
    match v {
        Some(TempValue::Celsius(b)) => Some(b),
        None => None,
    }
}

impl Message {
    pub fn new(field: WireField, position: (u32, u32, u32)) -> (r: Self)
        ensures
            r.field == field && r.position == position,
    {
        Self { field, position }
    }

    /// The compact encoding of this message.
    pub fn to_payload(&self) -> (r: Vec<u8>)
        ensures
            r@ == payload_bytes(*self),
    {
        let mut v: Vec<u8> = Vec::new();
        push_tagged(&mut v, bits_of_magnetic(self.field.x));
        push_tagged(&mut v, bits_of_magnetic(self.field.y));
        push_tagged(&mut v, bits_of_magnetic(self.field.z));
        push_tagged(&mut v, bits_of_temp(self.field.t));
        push_le(&mut v, self.position.0);
        push_le(&mut v, self.position.1);
        push_le(&mut v, self.position.2);
        assert(v@ =~= payload_bytes(*self));
        v
    }

    /// Decodes the message at the start of `s`; the bytes after it are ignored.
    pub fn from_payload(s: &[u8]) -> (r: Result<Message, PayloadError>)
        ensures
            r == payload_decoded(s@),
    {
        assert(s@.subrange(0, s@.len() as int) =~= s@);
        let (x, i) = take_tagged(s, 0)?;
        let (y, i) = take_tagged(s, i)?;
        let (z, i) = take_tagged(s, i)?;
        let (t, i) = take_tagged(s, i)?;
        let (px, i) = take_float(s, i)?;
        let (py, i) = take_float(s, i)?;
        let (pz, _) = take_float(s, i)?;
        let t = match t {
            Some(b) => Some(TempValue::Celsius(b)),
            None => None,
        };
        Ok(
            Message {
                field: WireField { x: magnetic(x), y: magnetic(y), z: magnetic(z), t },
                position: (px, py, pz),
            },
        )
    }
}

} // verus!

verus! {

proof fn lemma_payload_len(m: Message)
    ensures
        16 <= payload_bytes(m).len() <= 36,
{
}

/// `run_len` over a zero-free stretch that ends at a zero or at the end.
proof fn lemma_run_len(s: Seq<u8>, i: int, k: int)
    requires
        0 <= i,
        0 <= k,
        i + k <= s.len(),
        forall|j: int| i <= j < i + k ==> s[j] != 0u8,
        i + k == s.len() || s[i + k] == 0u8,
    ensures
        run_len(s, i) == k,
    decreases k,
{
    if k > 0 {
        lemma_run_len(s, i + 1, k - 1);
    }
}

proof fn lemma_le_round_trip(s: Seq<u8>, i: int, b: u32)
    requires
        0 <= i,
        i + 4 <= s.len(),
        s.subrange(i, i + 4) == le_bytes(b),
    ensures
        le_u32(s, i) == b,
{
    assert(s[i] == s.subrange(i, i + 4)[0] && s[i + 1] == s.subrange(i, i + 4)[1] && s[i + 2]
        == s.subrange(i, i + 4)[2] && s[i + 3] == s.subrange(i, i + 4)[3]);
    let (b0, b1, b2, b3) = (s[i], s[i + 1], s[i + 2], s[i + 3]);
    assert((b0 as u32) | ((b1 as u32) << 8u32) | ((b2 as u32) << 16u32) | ((b3 as u32) << 24u32)
        == b) by (bit_vector)
        requires
            b0 == (b & 0xff) as u8,
            b1 == ((b >> 8u32) & 0xff) as u8,
            b2 == ((b >> 16u32) & 0xff) as u8,
            b3 == (b >> 24u32) as u8,
    ;
}

proof fn lemma_magnetic_round_trip(v: Option<MagneticValue>, r: Seq<u8>)
    ensures
        parse_tagged(magnetic_bytes(v) + r) matches Ok((b, rest)) && as_magnetic(b) == v && rest
            == r,
{
    let t = magnetic_bytes(v) + r;
    match v {
        None => {
            assert(t.subrange(1, t.len() as int) =~= r);
        },
        Some(MagneticValue::MicroTesla(b)) => {
            assert(t.subrange(6, t.len() as int) =~= r);
            assert(t.subrange(2, 6) =~= le_bytes(b));
            lemma_le_round_trip(t, 2, b);
        },
    }
}

proof fn lemma_temp_round_trip(v: Option<TempValue>, r: Seq<u8>)
    ensures
        parse_tagged(temp_bytes(v) + r) matches Ok((b, rest)) && as_temp(b) == v && rest == r,
{
    let t = temp_bytes(v) + r;
    match v {
        None => {
            assert(t.subrange(1, t.len() as int) =~= r);
        },
        Some(TempValue::Celsius(b)) => {
            assert(t.subrange(6, t.len() as int) =~= r);
            assert(t.subrange(2, 6) =~= le_bytes(b));
            lemma_le_round_trip(t, 2, b);
        },
    }
}

proof fn lemma_float_round_trip(b: u32, r: Seq<u8>)
    ensures
        parse_float(le_bytes(b) + r) == Ok::<(u32, Seq<u8>), PayloadError>((b, r)),
{
    let t = le_bytes(b) + r;
    assert(t.subrange(4, t.len() as int) =~= r);
    assert(t.subrange(0, 4) =~= le_bytes(b));
    lemma_le_round_trip(t, 0, b);
}

/// Decoding the compact encoding of a message gives that message back.
pub proof fn lemma_payload_round_trip(m: Message)
    ensures
        payload_decoded(payload_bytes(m)) == Ok::<Message, PayloadError>(m),
{
    let p2 = le_bytes(m.position.2);
    let r5 = le_bytes(m.position.1) + p2;
    let r4 = le_bytes(m.position.0) + r5;
    let r3 = temp_bytes(m.field.t) + r4;
    let r2 = magnetic_bytes(m.field.z) + r3;
    let r1 = magnetic_bytes(m.field.y) + r2;
    lemma_magnetic_round_trip(m.field.x, r1);
    lemma_magnetic_round_trip(m.field.y, r2);
    lemma_magnetic_round_trip(m.field.z, r3);
    lemma_temp_round_trip(m.field.t, r4);
    lemma_float_round_trip(m.position.0, r5);
    lemma_float_round_trip(m.position.1, p2);
    assert(p2 + seq![] =~= p2);
    lemma_float_round_trip(m.position.2, seq![]);
}

/// The bytes of `s` from `start` up to its next zero byte or its end, and where they end.
fn zero_free_run(s: &[u8], start: usize) -> (r: (Vec<u8>, usize))
    requires
        start <= s@.len(),
    ensures
        r.1 == start + run_len(s@, start as int),
        r.1 <= s@.len(),
        r.0@ == s@.subrange(start as int, r.1 as int),
        zero_free(r.0@),
{
    let mut out: Vec<u8> = Vec::new();
    let mut i = start;
    while i < s.len() && s[i] != 0
        invariant
            start <= i <= s@.len(),
            run_len(s@, start as int) == (i - start) + run_len(s@, i as int),
            out@ == s@.subrange(start as int, i as int),
            zero_free(out@),
        decreases s@.len() - i,
    {
        out.push(s[i]);
        i = i + 1;
        assert(out@ =~= s@.subrange(start as int, i as int));
    }
    (out, i)
}

impl Message {
    /// The frame of this message: its compact encoding, COBS-encoded, then a zero byte.
    /// The encoding adds one code byte and the delimiter, so the frame always fits the
    /// frame buffer.
    pub fn to_frame(&self) -> (r: Result<Vec<u8>, Error>)
        ensures
            r matches Ok(f) && is_frame_of(f@, *self) && f@.len() == payload_bytes(*self).len() + 2
                && f@.len() <= FRAME_CAPACITY,
    {
        let payload = self.to_payload();
        proof {
            lemma_payload_len(*self);
        }
        let mut frame = cobs_encode(payload.as_slice());
        let ghost body = frame@;
        frame.push(0u8);
        assert(frame@.drop_last() =~= body);
        if frame.len() > FRAME_CAPACITY {
            return Err(Error::FailedCOBSSerialization);
        }
        Ok(frame)
    }

    /// Decodes the first whole frame of a block read from the link: the bytes up to the
    /// block's first zero are skipped, and the zero-free run after it is the frame.
    pub fn from_block(block: &[u8]) -> (r: Result<Message, Error>)
        ensures
            r == block_decoded(block@),
    {
        let (_, first) = zero_free_run(block, 0);
        if first >= block.len() {
            return Err(Error::FailedRead);
        }
        let (chunk, _) = zero_free_run(block, first + 1);
        match cobs_decode(chunk.as_slice()) {
            Err(()) => Err(Error::FailedCOBSDeserialization),
            Ok(payload) => match Message::from_payload(payload.as_slice()) {
                Err(e) => Err(Error::FailedParse(e)),
                Ok(m) => Ok(m),
            },
        }
    }
}

/// A frame read back gives the message it was made from: in a block that holds anything
/// without a zero byte, then a zero byte, then the frame, then anything.
pub proof fn lemma_frame_round_trip(m: Message, lead: Seq<u8>, frame: Seq<u8>, tail: Seq<u8>)
    requires
        zero_free(lead),
        is_frame_of(frame, m),
    ensures
        block_decoded(lead + seq![0u8] + frame + tail) == Ok::<Message, Error>(m),
{
    let b = lead + seq![0u8] + frame + tail;
    let n = lead.len() as int;
    let k = frame.len() - 1;
    assert(b[n] == 0u8);
    lemma_run_len(b, 0, n);
    assert forall|j: int| n + 1 <= j < n + 1 + k implies b[j] != 0u8 by {
        assert(b[j] == frame.drop_last()[j - n - 1]);
    }
    assert(b[n + 1 + k] == frame.last());
    lemma_run_len(b, n + 1, k);
    assert(b.subrange(n + 1, n + 1 + k) =~= frame.drop_last());
    lemma_payload_round_trip(m);
}

} // verus!
