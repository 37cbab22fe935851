//! Big-endian 32-bit integers as they appear on the wire.

use byteorder::{BigEndian, ByteOrder};
use vstd::prelude::*;

verus! {

/// The number that four bytes spell, most significant byte first.
pub open spec fn be_value(b: Seq<u8>) -> int
    recommends
        b.len() == 4,
{
    b[0] as int * 0x100_0000 + b[1] as int * 0x1_0000 + b[2] as int * 0x100 + b[3] as int
}

/// The four bytes of `n`, most significant byte first.
pub open spec fn be_bytes(n: u32) -> Seq<u8> {
    seq![
        (n as int / 0x100_0000) as u8,
        ((n as int / 0x1_0000) % 0x100) as u8,
        ((n as int / 0x100) % 0x100) as u8,
        (n as int % 0x100) as u8,
    ]
}

/// Reading back the bytes of a number gives the number.
pub proof fn lemma_be_value_of_bytes(n: u32)
    ensures
        be_bytes(n).len() == 4,
        be_value(be_bytes(n)) == n as int,
{
}

/// `byteorder::BigEndian::read_u32`: the first four bytes of `buf`, read most
/// significant byte first. The outside function panics on a shorter buffer,
/// which `requires` leaves out.
#[verifier::external_body]
pub(crate) fn read_u32_be(buf: &[u8]) -> (n: u32)
    requires
        buf@.len() >= 4,
    ensures
        n as int == be_value(buf@.subrange(0, 4)),
{
    BigEndian::read_u32(buf)
}

/// `byteorder::BigEndian::write_u32` on a four-byte buffer: the buffer then
/// holds the bytes of `n`, most significant byte first.
#[verifier::external_body]
pub(crate) fn u32_be_bytes(n: u32) -> (out: [u8; 4])
    ensures
        out@ == be_bytes(n),
{
    let mut out = [0u8; 4];
    BigEndian::write_u32(&mut out, n);
    out
}

/// Appends the big-endian bytes of `n` to `out`.
pub fn push_u32_be(out: &mut Vec<u8>, n: u32)
    ensures
        final(out)@ == old(out)@ + be_bytes(n),
{
    let bytes = u32_be_bytes(n);
    out.push(bytes[0]);
    out.push(bytes[1]);
    out.push(bytes[2]);
    out.push(bytes[3]);
    assert(out@ =~= old(out)@ + be_bytes(n));
}

/// Reads the big-endian number at `at .. at + 4` of `buf`.
pub fn u32_be_at(buf: &[u8], at: usize) -> (n: u32)
    requires
        at + 4 <= buf@.len(),
    ensures
        n as int == be_value(buf@.subrange(at as int, at + 4)),
{
    let len: usize = buf.len();
    let part = vstd::slice::slice_subrange(buf, at, at + 4);
    assert(part@.subrange(0, 4) =~= part@);
    read_u32_be(part)
}

} // verus!
