//! COBS framing: a frame is the encoded payload, which holds no zero byte, followed by
//! one zero byte that delimits it.
use vstd::prelude::*;

verus! {

/// Whether a sequence holds no zero byte.
pub open spec fn zero_free(s: Seq<u8>) -> bool {
    forall|i: int| 0 <= i < s.len() ==> s[i] != 0u8
}

/// The payload that a zero-free COBS encoding stands for, if it is well formed. The
/// encoding is a run of blocks. A block starts with a code byte `c` and holds `c - 1` data
/// bytes; between two blocks a zero byte is restored, unless the first one's code is 255.
pub open spec fn cobs_decoded(s: Seq<u8>) -> Option<Seq<u8>>
    decreases s.len(),
{
    if s.len() == 0 {
        Some(seq![])
    } else {
        let c = s[0] as int;
        if c == 0 || c > s.len() {
            None
        } else if c == s.len() {
            Some(s.subrange(1, c))
        } else {
            match cobs_decoded(s.subrange(c, s.len() as int)) {
                Some(rest) => Some(
                    s.subrange(1, c) + (if c == 255 { seq![] } else { seq![0u8] }) + rest,
                ),
                None => None,
            }
        }
    }
}

/// Relies on `cobs::encode_vec` (cobs 0.2): it writes the standard COBS encoding of
/// `source`, one code byte per block of fewer than 254 bytes, and no delimiter. An empty
/// source gives an empty encoding.
#[verifier::external_body]
pub(crate) fn cobs_encode(source: &[u8]) -> (r: Vec<u8>)
    requires
        source@.len() < 254,
    ensures
        zero_free(r@),
        cobs_decoded(r@) == Some(source@),
        source@.len() > 0 ==> r@.len() == source@.len() + 1,
{
    cobs::encode_vec(source)
}

/// Relies on `cobs::decode_in_place` (cobs 0.2): on input without a zero byte, it
/// decodes block by block and fails only when a code byte runs past the end.
#[verifier::external_body]
pub(crate) fn cobs_decode(encoded: &[u8]) -> (r: Result<Vec<u8>, ()>)
    requires
        zero_free(encoded@),
    ensures
        match cobs_decoded(encoded@) {
            Some(p) => r matches Ok(v) && v@ == p,
            None => r is Err,
        },
{
    let mut buffer = encoded.to_vec();
    match cobs::decode_in_place(&mut buffer) {
        Ok(n) => {
            buffer.truncate(n);
            Ok(buffer)
        },
        Err(()) => Err(()),
    }
}

} // verus!
