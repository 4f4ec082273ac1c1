//! Big-endian encoding of `u64` values, as the super block stores its fields.
use vstd::prelude::*;

verus! {

/// The value whose big-endian representation is the first eight bytes of `b`.
pub open spec fn spec_u64_from_be_bytes(b: Seq<u8>) -> u64 {
    (b[0] as u64) << 56u64 | (b[1] as u64) << 48u64 | (b[2] as u64) << 40u64 | (b[3] as u64)
        << 32u64 | (b[4] as u64) << 24u64 | (b[5] as u64) << 16u64 | (b[6] as u64) << 8u64 | (
    b[7] as u64)
}

/// The eight bytes of `v`, most significant first.
pub open spec fn spec_u64_to_be_bytes(v: u64) -> Seq<u8> {
    seq![
        ((v >> 56u64) & 0xffu64) as u8,
        ((v >> 48u64) & 0xffu64) as u8,
        ((v >> 40u64) & 0xffu64) as u8,
        ((v >> 32u64) & 0xffu64) as u8,
        ((v >> 24u64) & 0xffu64) as u8,
        ((v >> 16u64) & 0xffu64) as u8,
        ((v >> 8u64) & 0xffu64) as u8,
        (v & 0xffu64) as u8,
    ]
}

/// Decoding the encoding of a value gives the value back.
pub proof fn lemma_u64_be_value_round_trip(v: u64)
    ensures
        spec_u64_from_be_bytes(spec_u64_to_be_bytes(v)) == v,
{
    let b = spec_u64_to_be_bytes(v);
    let b0 = ((v >> 56u64) & 0xffu64) as u8;
    let b1 = ((v >> 48u64) & 0xffu64) as u8;
    let b2 = ((v >> 40u64) & 0xffu64) as u8;
    let b3 = ((v >> 32u64) & 0xffu64) as u8;
    let b4 = ((v >> 24u64) & 0xffu64) as u8;
    let b5 = ((v >> 16u64) & 0xffu64) as u8;
    let b6 = ((v >> 8u64) & 0xffu64) as u8;
    let b7 = (v & 0xffu64) as u8;
    assert(b[0] == b0 && b[1] == b1 && b[2] == b2 && b[3] == b3);
    assert(b[4] == b4 && b[5] == b5 && b[6] == b6 && b[7] == b7);
    assert((b0 as u64) << 56u64 | (b1 as u64) << 48u64 | (b2 as u64) << 40u64 | (b3 as u64)
        << 32u64 | (b4 as u64) << 24u64 | (b5 as u64) << 16u64 | (b6 as u64) << 8u64 | (
    b7 as u64) == v) by (bit_vector)
        requires
            b0 == ((v >> 56u64) & 0xffu64) as u8,
            b1 == ((v >> 48u64) & 0xffu64) as u8,
            b2 == ((v >> 40u64) & 0xffu64) as u8,
            b3 == ((v >> 32u64) & 0xffu64) as u8,
            b4 == ((v >> 24u64) & 0xffu64) as u8,
            b5 == ((v >> 16u64) & 0xffu64) as u8,
            b6 == ((v >> 8u64) & 0xffu64) as u8,
            b7 == (v & 0xffu64) as u8,
    ;
}

/// Encoding the value that eight bytes decode to gives those bytes back.
pub proof fn lemma_u64_be_bytes_round_trip(b: Seq<u8>)
    requires
        b.len() == 8,
    ensures
        spec_u64_to_be_bytes(spec_u64_from_be_bytes(b)) == b,
{
    let v = spec_u64_from_be_bytes(b);
    let (b0, b1, b2, b3, b4, b5, b6, b7) = (b[0], b[1], b[2], b[3], b[4], b[5], b[6], b[7]);
    assert({
        &&& b0 == ((v >> 56u64) & 0xffu64) as u8
        &&& b1 == ((v >> 48u64) & 0xffu64) as u8
        &&& b2 == ((v >> 40u64) & 0xffu64) as u8
        &&& b3 == ((v >> 32u64) & 0xffu64) as u8
        &&& b4 == ((v >> 24u64) & 0xffu64) as u8
        &&& b5 == ((v >> 16u64) & 0xffu64) as u8
        &&& b6 == ((v >> 8u64) & 0xffu64) as u8
        &&& b7 == (v & 0xffu64) as u8
    }) by (bit_vector)
        requires
            v == (b0 as u64) << 56u64 | (b1 as u64) << 48u64 | (b2 as u64) << 40u64 | (b3 as u64)
                << 32u64 | (b4 as u64) << 24u64 | (b5 as u64) << 16u64 | (b6 as u64) << 8u64 | (
            b7 as u64),
    ;
    assert(spec_u64_to_be_bytes(v) =~= b);
}

/// Calls `u64::from_be_bytes`, which std documents as building the value from
/// its big-endian byte representation: the first byte is the most significant.
#[verifier::external_body]
pub(crate) fn u64_from_be_bytes(bytes: [u8; 8]) -> (v: u64)
    ensures
        v == spec_u64_from_be_bytes(bytes@),
{
    u64::from_be_bytes(bytes)
}

/// Calls `u64::to_be_bytes`, which std documents as returning the memory
/// representation of the value in big-endian byte order.
#[verifier::external_body]
pub(crate) fn u64_to_be_bytes(v: u64) -> (bytes: [u8; 8])
    ensures
        bytes@ == spec_u64_to_be_bytes(v),
{
    v.to_be_bytes()
}

} // verus!
