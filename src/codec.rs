//! Reading fixed-width little-endian integers out of encoded bytes.
use parity_scale_codec::{Decode, Encode};
use vstd::prelude::*;

verus! {

/// The number that a byte sequence denotes when read little endian.
pub open spec fn le_value(s: Seq<u8>) -> nat
    decreases s.len(),
{
    if s.len() == 0 {
        0
    } else {
        s[0] as nat + 256 * le_value(s.drop_first())
    }
}

/// The 128-bit integer whose little-endian bytes start at `at`.
pub open spec fn le_u128(s: Seq<u8>, at: int) -> u128 {
    le_value(s.subrange(at, at + 16)) as u128
}

/// Relies on parity_scale_codec's `Decode for u128` reading from a byte slice: it
/// takes the next sixteen bytes as a little-endian integer, and fails when fewer
/// remain.
#[verifier::external_body]
pub(crate) fn decode_u128_at(bytes: &[u8], at: usize) -> (r: Option<u128>)
    requires
        at <= bytes@.len(),
    ensures
        r == (if bytes@.len() - at >= 16 {
            Some(le_u128(bytes@, at as int))
        } else {
            None::<u128>
        }),
{
    let mut input = &bytes[at..];
    u128::decode(&mut input).ok()
}

/// Relies on parity_scale_codec's `Encode for u128`: the sixteen little-endian
/// bytes of the integer.
#[verifier::external_body]
pub(crate) fn encode_u128(v: u128) -> (r: Vec<u8>)
    ensures
        r@.len() == 16,
        le_value(r@) == v,
{
    v.encode()
}

/// Appends the sixteen little-endian bytes of `v` to `out`.
pub(crate) fn push_u128(out: &mut Vec<u8>, v: u128)
    ensures
        final(out)@.len() == old(out)@.len() + 16,
        final(out)@.subrange(0, old(out)@.len() as int) == old(out)@,
        le_u128(final(out)@, old(out)@.len() as int) == v,
{
    let mut bytes = encode_u128(v);
    let ghost e = bytes@;
    out.append(&mut bytes);
    let ghost n = old(out)@.len() as int;
    assert(out@.subrange(0, n) =~= old(out)@);
    assert(out@.subrange(n, n + 16) =~= e);
}

} // verus!
