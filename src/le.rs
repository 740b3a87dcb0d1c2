//! Little-endian encoding of guest words, through `byteorder`.
use byteorder::{ByteOrder, LittleEndian};
use vstd::prelude::*;

verus! {

/// The four bytes of `n`, least significant first.
pub open spec fn le32(n: u32) -> Seq<u8> {
    seq![
        (n % 0x100) as u8,
        ((n / 0x100) % 0x100) as u8,
        ((n / 0x1_0000) % 0x100) as u8,
        (n / 0x100_0000) as u8,
    ]
}

/// The eight bytes of `n`, least significant first.
pub open spec fn le64(n: u64) -> Seq<u8> {
    le32((n % 0x1_0000_0000) as u32) + le32((n / 0x1_0000_0000) as u32)
}

/// The number that four bytes encode, least significant first.
pub open spec fn le32_value(b: Seq<u8>) -> u32
    recommends
        b.len() == 4,
{
    (b[0] + 0x100 * b[1] + 0x1_0000 * b[2] + 0x100_0000 * b[3]) as u32
}

/// Relies on `LittleEndian::write_u32`: it stores `n` in the first four bytes
/// of the buffer, least significant first.
#[verifier::external_body]
pub fn encode_u32(n: u32) -> (r: Vec<u8>)
    ensures
        r@ == le32(n),
{
    let mut b = vec![0u8; 4];
    LittleEndian::write_u32(&mut b, n);
    b
}

/// Relies on `LittleEndian::write_u64`: it stores `n` in the first eight bytes
/// of the buffer, least significant first.
#[verifier::external_body]
pub fn encode_u64(n: u64) -> (r: Vec<u8>)
    ensures
        r@ == le64(n),
{
    let mut b = vec![0u8; 8];
    LittleEndian::write_u64(&mut b, n);
    b
}

/// Relies on `LittleEndian::read_u32`: it reads the first four bytes of the
/// slice, least significant first, and panics on fewer than four.
#[verifier::external_body]
pub(crate) fn decode_u32_at(buf: &Vec<u8>, at: usize) -> (r: u32)
    requires
        at + 4 <= buf@.len(),
    ensures
        r == le32_value(buf@.subrange(at as int, at + 4)),
{
    LittleEndian::read_u32(&buf[at..])
}

/// Decoding the four bytes of a word gives the word back.
pub proof fn lemma_le32_round_trip(n: u32)
    ensures
        le32(n).len() == 4,
        le32_value(le32(n)) == n,
{
    let b = le32(n);
    assert(b[0] == n % 0x100);
    assert(b[1] == (n / 0x100) % 0x100);
    assert(b[2] == (n / 0x1_0000) % 0x100);
    assert(b[3] == n / 0x100_0000);
    assert(n == n % 0x100 + 0x100 * ((n / 0x100) % 0x100) + 0x1_0000 * ((n / 0x1_0000) % 0x100)
        + 0x100_0000 * (n / 0x100_0000)) by (nonlinear_arith);
}

} // verus!
