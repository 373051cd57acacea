//! Encoding of integers in the byte order of the machine.
use vstd::prelude::*;

verus! {

/// The two bytes of a number in the byte order of the machine, as `u16::to_ne_bytes` of std gives
/// them.
///
/// The byte order belongs to the target that the library is compiled for, like the width of
/// `usize`: it is the same in every process and on every machine that can run the compiled library.
pub uninterp spec fn native_u16(x: u16) -> Seq<u8>;

/// Calls `u16::to_ne_bytes` of std: the result is a function of the number, and holds its two bytes,
/// either the least or the most significant one first. Which of the two it is depends on the target
/// and is left open.
#[verifier::external_body]
fn to_native(x: u16) -> (bytes: [u8; 2])
    ensures
        bytes@ == native_u16(x),
        bytes@ == seq![x as u8, (x >> 8) as u8] || bytes@ == seq![(x >> 8) as u8, x as u8],
{
    x.to_ne_bytes()
}

/// The machine stores the least significant byte of a number first.
pub open spec fn little_endian() -> bool {
    native_u16(1)[0] == 1
}

/// Tells whether the machine stores the least significant byte of a number first.
#[must_use]
pub fn is_little_endian() -> (little: bool)
    ensures
        little == little_endian(),
        little == (native_u16(1)[0] == 1),
{
    to_native(1)[0] == 1
}

/// Puts bytes that stand with the least significant one first into the byte order of the machine,
/// or the other way round.
pub open spec fn reorder(b: Seq<u8>) -> Seq<u8> {
    if little_endian() {
        b
    } else {
        b.reverse()
    }
}

/// The four bytes of `x`, least significant first.
pub open spec fn le_u32(x: u32) -> Seq<u8> {
    seq![x as u8, (x >> 8) as u8, (x >> 16) as u8, (x >> 24) as u8]
}

/// The eight bytes of `x`, least significant first.
pub open spec fn le_u64(x: u64) -> Seq<u8> {
    seq![
        x as u8,
        (x >> 8) as u8,
        (x >> 16) as u8,
        (x >> 24) as u8,
        (x >> 32) as u8,
        (x >> 40) as u8,
        (x >> 48) as u8,
        (x >> 56) as u8,
    ]
}

/// The number whose bytes, least significant first, are the first four of `b`.
pub open spec fn u32_le(b: Seq<u8>) -> u32 {
    b[0] as u32 | (b[1] as u32) << 8 | (b[2] as u32) << 16 | (b[3] as u32) << 24
}

/// The number whose bytes, least significant first, are the first eight of `b`.
pub open spec fn u64_le(b: Seq<u8>) -> u64 {
    b[0] as u64 | (b[1] as u64) << 8 | (b[2] as u64) << 16 | (b[3] as u64) << 24 | (b[4] as u64)
        << 32 | (b[5] as u64) << 40 | (b[6] as u64) << 48 | (b[7] as u64) << 56
}

/// The four bytes of `x`, in the byte order of the machine.
#[verifier::opaque]
pub open spec fn ne_u32(x: u32) -> Seq<u8> {
    reorder(le_u32(x))
}

/// The eight bytes of `x`, in the byte order of the machine.
#[verifier::opaque]
pub open spec fn ne_u64(x: u64) -> Seq<u8> {
    reorder(le_u64(x))
}

/// The number whose four bytes, in the byte order of the machine, are `b`.
#[verifier::opaque]
pub open spec fn u32_ne(b: Seq<u8>) -> u32 {
    u32_le(reorder(b))
}

/// The number whose eight bytes, in the byte order of the machine, are `b`.
#[verifier::opaque]
pub open spec fn u64_ne(b: Seq<u8>) -> u64 {
    u64_le(reorder(b))
}

/// `n` zero bytes.
pub open spec fn zeros(n: nat) -> Seq<u8> {
    Seq::new(n, |i: int| 0u8)
}

/// Putting bytes into the other order twice changes nothing.
proof fn reorder_twice(b: Seq<u8>)
    ensures
        reorder(b).len() == b.len(),
        reorder(reorder(b)) == b,
{
    assert(b.reverse().reverse() =~= b);
}

/// Decoding undoes encoding, with the least significant byte first.
proof fn u32_le_encode_decode(x: u32)
    ensures
        u32_le(le_u32(x)) == x,
{
    assert(x == (x as u8) as u32 | ((x >> 8) as u8 as u32) << 8 | ((x >> 16) as u8 as u32) << 16
        | ((x >> 24) as u8 as u32) << 24) by (bit_vector);
}

/// Encoding undoes decoding, with the least significant byte first.
proof fn u32_le_decode_encode(b: Seq<u8>)
    requires
        b.len() == 4,
    ensures
        le_u32(u32_le(b)) == b,
{
    let (b0, b1, b2, b3) = (b[0], b[1], b[2], b[3]);
    let x = b0 as u32 | (b1 as u32) << 8 | (b2 as u32) << 16 | (b3 as u32) << 24;
    assert(x as u8 == b0 && (x >> 8) as u8 == b1 && (x >> 16) as u8 == b2 && (x >> 24) as u8
        == b3) by (bit_vector)
        requires
            x == b0 as u32 | (b1 as u32) << 8 | (b2 as u32) << 16 | (b3 as u32) << 24,
    ;
    assert(le_u32(u32_le(b)) =~= b);
}

/// Decoding undoes encoding, with the least significant byte first.
proof fn u64_le_encode_decode(x: u64)
    ensures
        u64_le(le_u64(x)) == x,
{
    assert(x == (x as u8) as u64 | ((x >> 8) as u8 as u64) << 8 | ((x >> 16) as u8 as u64) << 16
        | ((x >> 24) as u8 as u64) << 24 | ((x >> 32) as u8 as u64) << 32 | ((x >> 40) as u8
        as u64) << 40 | ((x >> 48) as u8 as u64) << 48 | ((x >> 56) as u8 as u64) << 56)
        by (bit_vector);
}

/// Encoding undoes decoding, with the least significant byte first.
proof fn u64_le_decode_encode(b: Seq<u8>)
    requires
        b.len() == 8,
    ensures
        le_u64(u64_le(b)) == b,
{
    let (b0, b1, b2, b3, b4, b5, b6, b7) = (b[0], b[1], b[2], b[3], b[4], b[5], b[6], b[7]);
    let x = u64_le(b);
    assert(x as u8 == b0 && (x >> 8) as u8 == b1 && (x >> 16) as u8 == b2 && (x >> 24) as u8 == b3
        && (x >> 32) as u8 == b4 && (x >> 40) as u8 == b5 && (x >> 48) as u8 == b6 && (x >> 56)
        as u8 == b7) by (bit_vector)
        requires
            x == b0 as u64 | (b1 as u64) << 8 | (b2 as u64) << 16 | (b3 as u64) << 24 | (b4 as u64)
                << 32 | (b5 as u64) << 40 | (b6 as u64) << 48 | (b7 as u64) << 56,
    ;
    assert(le_u64(u64_le(b)) =~= b);
}

/// Decoding undoes encoding.
pub proof fn u32_encode_decode(x: u32)
    ensures
        ne_u32(x).len() == 4,
        u32_ne(ne_u32(x)) == x,
{
    reveal(ne_u32);
    reveal(u32_ne);
    u32_le_encode_decode(x);
    reorder_twice(le_u32(x));
}

/// Encoding undoes decoding.
pub proof fn u32_decode_encode(b: Seq<u8>)
    requires
        b.len() == 4,
    ensures
        ne_u32(u32_ne(b)) == b,
{
    reveal(ne_u32);
    reveal(u32_ne);
    reorder_twice(b);
    u32_le_decode_encode(reorder(b));
}

/// Decoding undoes encoding.
pub proof fn u64_encode_decode(x: u64)
    ensures
        ne_u64(x).len() == 8,
        u64_ne(ne_u64(x)) == x,
{
    reveal(ne_u64);
    reveal(u64_ne);
    u64_le_encode_decode(x);
    reorder_twice(le_u64(x));
}

/// Encoding undoes decoding.
pub proof fn u64_decode_encode(b: Seq<u8>)
    requires
        b.len() == 8,
    ensures
        ne_u64(u64_ne(b)) == b,
{
    reveal(ne_u64);
    reveal(u64_ne);
    reorder_twice(b);
    u64_le_decode_encode(reorder(b));
}

/// The bytes of a number are all zero exactly if the number is.
pub proof fn u32_zero_bytes(x: u32)
    ensures
        ne_u32(x) == zeros(4) <==> x == 0,
{
    u32_encode_decode(x);
    u32_encode_decode(0);
    assert(0u32 as u8 == 0 && (0u32 >> 8) as u8 == 0 && (0u32 >> 16) as u8 == 0 && (0u32 >> 24)
        as u8 == 0) by (bit_vector);
    assert(ne_u32(0) =~= zeros(4)) by {
        reveal(ne_u32);
    }
}

/// The bytes of a number are all zero exactly if the number is.
pub proof fn u64_zero_bytes(x: u64)
    ensures
        ne_u64(x) == zeros(8) <==> x == 0,
{
    u64_encode_decode(x);
    u64_encode_decode(0);
    assert(0u64 as u8 == 0 && (0u64 >> 8) as u8 == 0 && (0u64 >> 16) as u8 == 0 && (0u64 >> 24)
        as u8 == 0 && (0u64 >> 32) as u8 == 0 && (0u64 >> 40) as u8 == 0 && (0u64 >> 48) as u8 == 0
        && (0u64 >> 56) as u8 == 0) by (bit_vector);
    assert(ne_u64(0) =~= zeros(8)) by {
        reveal(ne_u64);
    }
}

/// The bytes of a number are its digits to the base 256. They start with the lowest one if the first
/// of the two bytes that the machine stores for the number one is a one, and with the highest one
/// otherwise.
pub proof fn u32_digits(x: u32)
    ensures
        ne_u32(x).len() == 4,
        native_u16(1)[0] == 1 ==> x == ne_u32(x)[0]
            + 0x100 * ne_u32(x)[1]
            + 0x10000 * ne_u32(x)[2]
            + 0x1000000 * ne_u32(x)[3],
        native_u16(1)[0] != 1 ==> x == ne_u32(x)[3]
            + 0x100 * ne_u32(x)[2]
            + 0x10000 * ne_u32(x)[1]
            + 0x1000000 * ne_u32(x)[0],
{
    assert(x == (x as u8)
        + 0x100 * ((x >> 8) as u8)
        + 0x10000 * ((x >> 16) as u8)
        + 0x1000000 * ((x >> 24) as u8)) by (bit_vector);
    reveal(ne_u32);
}

/// The number that is read from bytes has these bytes as its own.
pub proof fn u32_read_digits(b: Seq<u8>)
    requires
        b.len() == 4,
    ensures
        native_u16(1)[0] == 1 ==> u32_ne(b) == b[0]
            + 0x100 * b[1]
            + 0x10000 * b[2]
            + 0x1000000 * b[3],
        native_u16(1)[0] != 1 ==> u32_ne(b) == b[3]
            + 0x100 * b[2]
            + 0x10000 * b[1]
            + 0x1000000 * b[0],
{
    u32_decode_encode(b);
    u32_digits(u32_ne(b));
}

/// The bytes of a number are its digits to the base 256. They start with the lowest one if the first
/// of the two bytes that the machine stores for the number one is a one, and with the highest one
/// otherwise.
pub proof fn u64_digits(x: u64)
    ensures
        ne_u64(x).len() == 8,
        native_u16(1)[0] == 1 ==> x == ne_u64(x)[0]
            + 0x100 * ne_u64(x)[1]
            + 0x10000 * ne_u64(x)[2]
            + 0x1000000 * ne_u64(x)[3]
            + 0x100000000 * ne_u64(x)[4]
            + 0x10000000000 * ne_u64(x)[5]
            + 0x1000000000000 * ne_u64(x)[6]
            + 0x100000000000000 * ne_u64(x)[7],
        native_u16(1)[0] != 1 ==> x == ne_u64(x)[7]
            + 0x100 * ne_u64(x)[6]
            + 0x10000 * ne_u64(x)[5]
            + 0x1000000 * ne_u64(x)[4]
            + 0x100000000 * ne_u64(x)[3]
            + 0x10000000000 * ne_u64(x)[2]
            + 0x1000000000000 * ne_u64(x)[1]
            + 0x100000000000000 * ne_u64(x)[0],
{
    assert(x == (x as u8)
        + 0x100 * ((x >> 8) as u8)
        + 0x10000 * ((x >> 16) as u8)
        + 0x1000000 * ((x >> 24) as u8)
        + 0x100000000 * ((x >> 32) as u8)
        + 0x10000000000 * ((x >> 40) as u8)
        + 0x1000000000000 * ((x >> 48) as u8)
        + 0x100000000000000 * ((x >> 56) as u8)) by (bit_vector);
    reveal(ne_u64);
}

/// The number that is read from bytes has these bytes as its own.
pub proof fn u64_read_digits(b: Seq<u8>)
    requires
        b.len() == 8,
    ensures
        native_u16(1)[0] == 1 ==> u64_ne(b) == b[0]
            + 0x100 * b[1]
            + 0x10000 * b[2]
            + 0x1000000 * b[3]
            + 0x100000000 * b[4]
            + 0x10000000000 * b[5]
            + 0x1000000000000 * b[6]
            + 0x100000000000000 * b[7],
        native_u16(1)[0] != 1 ==> u64_ne(b) == b[7]
            + 0x100 * b[6]
            + 0x10000 * b[5]
            + 0x1000000 * b[4]
            + 0x100000000 * b[3]
            + 0x10000000000 * b[2]
            + 0x1000000000000 * b[1]
            + 0x100000000000000 * b[0],
{
    u64_decode_encode(b);
    u64_digits(u64_ne(b));
}

/// Zero bytes are zero.
pub proof fn zeros_are_zero(n: nat)
    ensures
        zeros(n).len() == n,
        forall|i: int| 0 <= i < n ==> #[trigger] zeros(n)[i] == 0,
{
}

/// Appends the four bytes of `x` to `out`, in the byte order of the machine.
pub fn push_u32(out: &mut Vec<u8>, x: u32)
    ensures
        final(out)@ == old(out)@ + ne_u32(x),
{
    if is_little_endian() {
        out.push(#[verifier::truncate] (x as u8));
        out.push(#[verifier::truncate] ((x >> 8) as u8));
        out.push(#[verifier::truncate] ((x >> 16) as u8));
        out.push(#[verifier::truncate] ((x >> 24) as u8));
    } else {
        out.push(#[verifier::truncate] ((x >> 24) as u8));
        out.push(#[verifier::truncate] ((x >> 16) as u8));
        out.push(#[verifier::truncate] ((x >> 8) as u8));
        out.push(#[verifier::truncate] (x as u8));
    }
    proof {
        reveal(ne_u32);
        assert(out@ =~= old(out)@ + ne_u32(x));
    }
}

/// Appends the eight bytes of `x` to `out`, in the byte order of the machine.
pub fn push_u64(out: &mut Vec<u8>, x: u64)
    ensures
        final(out)@ == old(out)@ + ne_u64(x),
{
    if is_little_endian() {
        out.push(#[verifier::truncate] (x as u8));
        out.push(#[verifier::truncate] ((x >> 8) as u8));
        out.push(#[verifier::truncate] ((x >> 16) as u8));
        out.push(#[verifier::truncate] ((x >> 24) as u8));
        out.push(#[verifier::truncate] ((x >> 32) as u8));
        out.push(#[verifier::truncate] ((x >> 40) as u8));
        out.push(#[verifier::truncate] ((x >> 48) as u8));
        out.push(#[verifier::truncate] ((x >> 56) as u8));
    } else {
        out.push(#[verifier::truncate] ((x >> 56) as u8));
        out.push(#[verifier::truncate] ((x >> 48) as u8));
        out.push(#[verifier::truncate] ((x >> 40) as u8));
        out.push(#[verifier::truncate] ((x >> 32) as u8));
        out.push(#[verifier::truncate] ((x >> 24) as u8));
        out.push(#[verifier::truncate] ((x >> 16) as u8));
        out.push(#[verifier::truncate] ((x >> 8) as u8));
        out.push(#[verifier::truncate] (x as u8));
    }
    proof {
        reveal(ne_u64);
        assert(out@ =~= old(out)@ + ne_u64(x));
    }
}

/// Reads the number that stands at offset `at`, in the byte order of the machine.
pub fn read_u32(bytes: &[u8], at: usize) -> (x: u32)
    requires
        at + 4 <= bytes.len(),
    ensures
        x == u32_ne(bytes@.subrange(at as int, at + 4)),
{
    proof {
        reveal(u32_ne);
    }
    if is_little_endian() {
        bytes[at] as u32 | (bytes[at + 1] as u32) << 8 | (bytes[at + 2] as u32) << 16
            | (bytes[at + 3] as u32) << 24
    } else {
        bytes[at + 3] as u32 | (bytes[at + 2] as u32) << 8 | (bytes[at + 1] as u32) << 16
            | (bytes[at] as u32) << 24
    }
}

/// Reads the number that stands at offset `at`, in the byte order of the machine.
pub fn read_u64(bytes: &[u8], at: usize) -> (x: u64)
    requires
        at + 8 <= bytes.len(),
    ensures
        x == u64_ne(bytes@.subrange(at as int, at + 8)),
{
    proof {
        reveal(u64_ne);
    }
    if is_little_endian() {
        bytes[at] as u64 | (bytes[at + 1] as u64) << 8 | (bytes[at + 2] as u64) << 16
            | (bytes[at + 3] as u64) << 24 | (bytes[at + 4] as u64) << 32 | (bytes[at + 5] as u64) << 40
            | (bytes[at + 6] as u64) << 48 | (bytes[at + 7] as u64) << 56
    } else {
        bytes[at + 7] as u64 | (bytes[at + 6] as u64) << 8 | (bytes[at + 5] as u64) << 16
            | (bytes[at + 4] as u64) << 24 | (bytes[at + 3] as u64) << 32 | (bytes[at + 2] as u64) << 40
            | (bytes[at + 1] as u64) << 48 | (bytes[at] as u64) << 56
    }
}

} // verus!
