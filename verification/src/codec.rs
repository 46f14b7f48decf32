//! Wire codec shared by both editions: the Minecraft VarInt (32-bit,
//! little-endian base-128, at most five bytes on the wire), the
//! VarInt-length-prefixed UTF-8 string, the RakNet `u16`-length-prefixed
//! string, and big-endian fixed-width integers.
//!
//! Readers take a buffer and a position and return the decoded value with
//! the position just past it; writers append to a byte vector. Every
//! function is specified against a spec-level codec, and the round-trip
//! laws are proved below (`lemma_varint_round_trip`,
//! `lemma_string_round_trip`, `lemma_varint_at_most_five_bytes`).

use vstd::prelude::*;

verus! {

use vstd::utf8::*;
use vstd::string::StringSliceAdditionalSpecFns;
use crate::Error;

/// Failure modes of the byte-level decoders.
#[derive(Debug, Clone, Copy, PartialEq, Eq, Structural)]
pub enum CodecError {
    /// A fifth VarInt byte still had its continuation bit set.
    VarIntTooLarge,
    /// The buffer ended before the value was complete (this also covers a
    /// string length prefix that no buffer could satisfy).
    UnexpectedEnd,
    /// A length-prefixed string held bytes that are not valid UTF-8.
    InvalidUtf8,
}

/// Every codec failure makes the surrounding packet invalid.
pub fn codec_error_to_error(e: CodecError) -> (r: Error)
    ensures
        r == Error::InvalidPacket,
{
    match e {
        CodecError::VarIntTooLarge => Error::InvalidPacket,
        CodecError::UnexpectedEnd => Error::InvalidPacket,
        CodecError::InvalidUtf8 => Error::InvalidPacket,
    }
}

// ---------------------------------------------------------------------
// VarInt
// ---------------------------------------------------------------------

/// The VarInt encoding of a non-negative value: seven bits per byte,
/// least significant group first, continuation bit `0x80` on every byte
/// but the last.
pub open spec fn spec_varint(v: int) -> Seq<u8>
    recommends
        0 <= v,
    decreases v,
{
    if v < 0x80 {
        seq![v as u8]
    } else {
        seq![(v % 0x80 + 0x80) as u8] + spec_varint(v / 0x80)
    }
}

/// The number of bytes the VarInt encoding of `v` occupies on the wire.
pub open spec fn varint_len(v: int) -> int {
    spec_varint(v).len() as int
}

/// One step of VarInt decoding: `i` bytes have been consumed so far,
/// contributing `acc`, and the next byte has weight `mult == 128^i`.
/// The accumulated value is reduced to 32 bits at the end, which is how
/// a fifth byte with payload bits above bit 31 loses them.
pub open spec fn spec_read_varint_at(
    bytes: Seq<u8>,
    pos: int,
    i: int,
    acc: int,
    mult: int,
) -> Result<(u32, int), CodecError>
    decreases 5 - i,
{
    if i >= 5 {
        Err(CodecError::VarIntTooLarge)
    } else if pos + i >= bytes.len() {
        Err(CodecError::UnexpectedEnd)
    } else {
        let b = bytes[pos + i];
        let acc2 = acc + (b % 0x80) * mult;
        if b < 0x80 {
            Ok((((acc2 % 0x1_0000_0000) as u32), i + 1))
        } else {
            spec_read_varint_at(bytes, pos, i + 1, acc2, mult * 0x80)
        }
    }
}

/// Decode a VarInt at `pos`: the raw 32-bit value and the number of
/// bytes consumed.
pub open spec fn spec_read_varint(bytes: Seq<u8>, pos: int) -> Result<(u32, int), CodecError> {
    spec_read_varint_at(bytes, pos, 0, 0, 1)
}

/// Reads a VarInt, returning its raw 32-bit value and the position just
/// past it. The signed reading is `read_varint`.
pub fn read_varint_u32(buf: &Vec<u8>, pos: usize) -> (r: Result<(u32, usize), CodecError>)
    requires
        pos <= buf@.len(),
    ensures
        match spec_read_varint(buf@, pos as int) {
            Ok((v, n)) => r is Ok && r.unwrap().0 == v && r.unwrap().1 == pos + n && pos + n
                <= buf@.len(),
            Err(e) => r == Err::<(u32, usize), CodecError>(e),
        },
{
    let mut acc: u64 = 0;
    let mut mult: u64 = 1;
    let mut i: usize = 0;
    loop
        invariant
            pos <= buf@.len(),
            i <= 5,
            acc < mult,
            i == 0 ==> mult == 1,
            i == 1 ==> mult == 0x80,
            i == 2 ==> mult == 0x4000,
            i == 3 ==> mult == 0x20_0000,
            i == 4 ==> mult == 0x1000_0000,
            i == 5 ==> mult == 0x8_0000_0000,
            spec_read_varint_at(buf@, pos as int, i as int, acc as int, mult as int)
                == spec_read_varint(buf@, pos as int),
        decreases 5 - i,
    {
        if i >= 5 {
            return Err(CodecError::VarIntTooLarge);
        }
        if buf.len() - pos <= i {
            return Err(CodecError::UnexpectedEnd);
        }
        let b = buf[pos + i];
        let acc2 = acc + (b as u64 % 0x80) * mult;
        if b < 0x80 {
            return Ok(((acc2 % 0x1_0000_0000) as u32, pos + i + 1));
        }
        acc = acc2;
        mult = mult * 0x80;
        i = i + 1;
    }
}

/// Whether a VarInt read one byte at a time off a stream is complete:
/// its last byte has the continuation bit clear, or five bytes are in
/// hand (more cannot help; the decoder reports them too large).
pub fn varint_prefix_complete(prefix: &Vec<u8>) -> (r: bool)
    ensures
        r == (prefix@.len() > 0 && (prefix@.last() < 0x80 || prefix@.len() >= 5)),
{
    let n = prefix.len();
    n > 0 && (prefix[n - 1] < 0x80 || n >= 5)
}

/// Reads a VarInt as the wire protocol has it, as a signed 32-bit
/// value: a fifth byte contributes its low four payload bits to bits
/// 28..31, so values with bit 31 set come out negative.
pub fn read_varint(buf: &Vec<u8>, pos: usize) -> (r: Result<(i32, usize), CodecError>)
    requires
        pos <= buf@.len(),
    ensures
        match spec_read_varint(buf@, pos as int) {
            Ok((v, n)) => r is Ok && r.unwrap().0 == v as i32 && r.unwrap().1 == pos + n,
            Err(e) => r == Err::<(i32, usize), CodecError>(e),
        },
{
    match read_varint_u32(buf, pos) {
        Ok((v, next)) => Ok((
            #[verifier::truncate]
            (v as i32),
            next,
        )),
        Err(e) => Err(e),
    }
}

/// Appends the VarInt encoding of a 32-bit value taken unsigned.
#[verifier::loop_isolation(false)]
pub fn write_varint_u32(out: &mut Vec<u8>, v: u32)
    ensures
        final(out)@ == old(out)@ + spec_varint(v as int),
{
    let ghost orig = out@;
    let mut x: u32 = v;
    loop
        invariant
            orig + spec_varint(v as int) == out@ + spec_varint(x as int),
        decreases x,
    {
        let ghost prev = out@;
        if x < 0x80 {
            out.push(x as u8);
            proof {
                assert(spec_varint(x as int) =~= seq![x as u8]);
                assert(prev + spec_varint(x as int) =~= out@);
            }
            return ;
        }
        let b: u8 = (x % 0x80 + 0x80) as u8;
        out.push(b);
        let ghost x_old = x;
        x = x / 0x80;
        proof {
            assert(spec_varint(x_old as int) =~= seq![b] + spec_varint(x as int));
            assert(prev + (seq![b] + spec_varint(x as int)) =~= out@ + spec_varint(x as int));
        }
    }
}

/// Writes a VarInt. A negative value has bits outside the low seven in
/// every arithmetic shift, so, as in the wire protocol, it is refused
/// with `VarIntTooLarge`; nothing is written in that case.
pub fn write_varint(out: &mut Vec<u8>, v: i32) -> (r: Result<(), CodecError>)
    ensures
        v >= 0 ==> r is Ok && final(out)@ == old(out)@ + spec_varint(v as int),
        v < 0 ==> r == Err::<(), CodecError>(CodecError::VarIntTooLarge) && final(out)@ == old(out)@,
{
    if v < 0 {
        return Err(CodecError::VarIntTooLarge);
    }
    write_varint_u32(out, v as u32);
    Ok(())
}

// ---------------------------------------------------------------------
// Round-trip laws for the VarInt
// ---------------------------------------------------------------------

/// Decoding from the middle of a buffer that holds the encoding of `v`
/// continues the accumulated value with weight `mult`.
proof fn lemma_read_varint_at_encoding(
    bytes: Seq<u8>,
    pos: int,
    i: int,
    acc: int,
    mult: int,
    v: int,
)
    requires
        0 <= v,
        0 <= pos,
        0 <= i,
        0 <= acc,
        1 <= mult,
        i + varint_len(v) <= 5,
        pos + i + varint_len(v) <= bytes.len(),
        bytes.subrange(pos + i, pos + i + varint_len(v)) == spec_varint(v),
    ensures
        spec_read_varint_at(bytes, pos, i, acc, mult) == Ok::<(u32, int), CodecError>(
            (((acc + v * mult) % 0x1_0000_0000) as u32, i + varint_len(v)),
        ),
    decreases v,
{
    let enc = spec_varint(v);
    assert(enc.len() >= 1);
    assert(bytes.subrange(pos + i, pos + i + varint_len(v))[0] == bytes[pos + i]);
    assert(bytes[pos + i] == enc[0]);
    if v < 0x80 {
        assert(enc =~= seq![v as u8]);
        assert(bytes[pos + i] == v as u8);
        assert((v as u8) % 0x80 == v);
    } else {
        let b0 = (v % 0x80 + 0x80) as u8;
        assert(enc[0] == b0);
        assert(b0 >= 0x80);
        assert(b0 % 0x80 == v % 0x80);
        let rest = spec_varint(v / 0x80);
        assert(enc =~= seq![b0] + rest);
        assert(varint_len(v) == 1 + varint_len(v / 0x80));
        let acc2 = acc + (v % 0x80) * mult;
        assert(bytes.subrange(pos + i + 1, pos + i + 1 + varint_len(v / 0x80)) =~= rest) by {
            assert forall|k: int| 0 <= k < varint_len(v / 0x80) implies bytes[pos + i + 1 + k]
                == rest[k] by {
                assert(enc[1 + k] == rest[k]);
                assert(bytes.subrange(pos + i, pos + i + varint_len(v))[1 + k] == bytes[pos + i + 1
                    + k]);
            }
        }
        lemma_read_varint_at_encoding(bytes, pos, i + 1, acc2, mult * 0x80, v / 0x80);
        assert((v % 0x80) * mult + (v / 0x80) * (mult * 0x80) == v * mult) by (nonlinear_arith);
        assert(acc2 + (v / 0x80) * (mult * 0x80) == acc + v * mult);
    }
}

/// A VarInt encoding of a value below `2^31` takes at most five bytes;
/// one byte suffices below `2^7`. This is the wire-size half of the
/// VarInt law.
pub proof fn lemma_varint_at_most_five_bytes(v: int)
    requires
        0 <= v < 0x8000_0000,
    ensures
        1 <= varint_len(v) <= 5,
{
    let v1 = v / 0x80;
    let v2 = v1 / 0x80;
    let v3 = v2 / 0x80;
    let v4 = v3 / 0x80;
    assert(v4 < 0x80);
    assert(spec_varint(v4).len() == 1);
    assert(spec_varint(v3).len() <= 2);
    assert(spec_varint(v2).len() <= 3);
    assert(spec_varint(v1).len() <= 4);
    assert(spec_varint(v).len() <= 5);
    assert(spec_varint(v).len() >= 1);
}

/// Round trip for the VarInt: every value in `[0, 2^31)` reads back from
/// its own encoding, consuming exactly its wire length.
pub proof fn lemma_varint_round_trip(v: int)
    requires
        0 <= v < 0x8000_0000,
    ensures
        spec_read_varint(spec_varint(v), 0) == Ok::<(u32, int), CodecError>(
            (v as u32, varint_len(v)),
        ),
{
    lemma_varint_at_most_five_bytes(v);
    let enc = spec_varint(v);
    assert(enc.subrange(0, varint_len(v)) =~= enc);
    lemma_read_varint_at_encoding(enc, 0, 0, 0, 1, v);
    assert((0 + v * 1) % 0x1_0000_0000 == v);
}

/// A quiet buffer whose first five bytes all carry the continuation bit
/// cannot hold a VarInt: the read reports `VarIntTooLarge`. This is the
/// sixth-byte half of the VarInt law.
pub proof fn lemma_varint_sixth_byte_rejected(bytes: Seq<u8>, pos: int)
    requires
        0 <= pos,
        pos + 5 <= bytes.len(),
        forall|j: int| 0 <= j < 5 ==> #[trigger] bytes[pos + j] >= 0x80,
    ensures
        spec_read_varint(bytes, pos) == Err::<(u32, int), CodecError>(CodecError::VarIntTooLarge),
{
    let a1 = 0 + (bytes[pos + 0] % 0x80) * 1;
    let a2 = a1 + (bytes[pos + 1] % 0x80) * 0x80;
    let a3 = a2 + (bytes[pos + 2] % 0x80) * 0x4000;
    let a4 = a3 + (bytes[pos + 3] % 0x80) * 0x20_0000;
    let a5 = a4 + (bytes[pos + 4] % 0x80) * 0x1000_0000;
    assert(spec_read_varint_at(bytes, pos, 0, 0, 1) == spec_read_varint_at(
        bytes,
        pos,
        1,
        a1,
        0x80,
    ));
    assert(spec_read_varint_at(bytes, pos, 1, a1, 0x80) == spec_read_varint_at(
        bytes,
        pos,
        2,
        a2,
        0x4000,
    ));
    assert(spec_read_varint_at(bytes, pos, 2, a2, 0x4000) == spec_read_varint_at(
        bytes,
        pos,
        3,
        a3,
        0x20_0000,
    ));
    assert(spec_read_varint_at(bytes, pos, 3, a3, 0x20_0000) == spec_read_varint_at(
        bytes,
        pos,
        4,
        a4,
        0x1000_0000,
    ));
    assert(spec_read_varint_at(bytes, pos, 4, a4, 0x1000_0000) == spec_read_varint_at(
        bytes,
        pos,
        5,
        a5,
        0x8_0000_0000,
    ));
}

// ---------------------------------------------------------------------
// Big-endian fixed-width integers
// ---------------------------------------------------------------------

/// The `n`-byte big-endian encoding of `v`, most significant byte first.
pub open spec fn spec_be_bytes(v: int, n: nat) -> Seq<u8>
    decreases n,
{
    if n == 0 {
        Seq::empty()
    } else {
        spec_be_bytes(v / 0x100, (n - 1) as nat) + seq![(v % 0x100) as u8]
    }
}

/// The value a byte sequence denotes when read big-endian.
pub open spec fn spec_be_value(s: Seq<u8>) -> int
    decreases s.len(),
{
    if s.len() == 0 {
        0
    } else {
        spec_be_value(s.drop_last()) * 0x100 + s.last()
    }
}

/// Reading `pos..pos+n` big-endian out of a buffer, with the count of
/// bytes consumed; too short a buffer is an unexpected end.
pub open spec fn spec_read_be(bytes: Seq<u8>, pos: int, n: nat) -> Result<(int, int), CodecError> {
    if pos + n <= bytes.len() {
        Ok((spec_be_value(bytes.subrange(pos, pos + n)), n as int))
    } else {
        Err(CodecError::UnexpectedEnd)
    }
}

/// Appends the low `n` bytes of `v`, big-endian.
fn write_be_bytes(out: &mut Vec<u8>, v: u64, n: usize)
    requires
        n <= 8,
    ensures
        final(out)@ == old(out)@ + spec_be_bytes(v as int, n as nat),
    decreases n,
{
    if n == 0 {
        proof {
            assert(old(out)@ + spec_be_bytes(v as int, 0) =~= old(out)@);
        }
    } else {
        write_be_bytes(out, v / 0x100, n - 1);
        out.push((v % 0x100) as u8);
        proof {
            assert(final(out)@ =~= old(out)@ + spec_be_bytes(v as int, n as nat));
        }
    }
}

/// Reads `n` bytes big-endian; the value of `n` bytes is below `256^n`.
fn read_be_value(buf: &Vec<u8>, pos: usize, n: usize) -> (r: u64)
    requires
        n <= 8,
        pos + n <= buf@.len(),
    ensures
        r == spec_be_value(buf@.subrange(pos as int, pos + n)),
        r < pow256(n as nat),
    decreases n,
{
    proof {
        lemma_pow256_values();
        assert(buf.len() == buf@.len());
    }
    if n == 0 {
        proof {
            assert(buf@.subrange(pos as int, pos as int) =~= Seq::<u8>::empty());
        }
        0
    } else {
        let hi = read_be_value(buf, pos, n - 1);
        let b = buf[pos + n - 1];
        proof {
            let s = buf@.subrange(pos as int, pos + n);
            assert(s.drop_last() =~= buf@.subrange(pos as int, pos + n - 1));
            assert(s.last() == buf@[pos + n - 1]);
            assert(hi * 0x100 + b < pow256(n as nat)) by (nonlinear_arith)
                requires
                    hi < pow256((n - 1) as nat),
                    b < 0x100,
                    pow256(n as nat) == 0x100 * pow256((n - 1) as nat),
            ;
        }
        hi * 0x100 + b as u64
    }
}

/// A big-endian encoding of `n` bytes is `n` bytes long.
pub proof fn lemma_be_bytes_len(v: int, n: nat)
    ensures
        spec_be_bytes(v, n).len() == n,
    decreases n,
{
    if n > 0 {
        lemma_be_bytes_len(v / 0x100, (n - 1) as nat);
    }
}

/// `256^n`, used to bound big-endian values.
pub open spec fn pow256(n: nat) -> int
    decreases n,
{
    if n == 0 {
        1
    } else {
        0x100 * pow256((n - 1) as nat)
    }
}

proof fn lemma_pow256_values()
    ensures
        pow256(0) == 1,
        pow256(1) == 0x100,
        pow256(2) == 0x1_0000,
        pow256(3) == 0x100_0000,
        pow256(4) == 0x1_0000_0000,
        pow256(5) == 0x100_0000_0000,
        pow256(6) == 0x1_0000_0000_0000,
        pow256(7) == 0x100_0000_0000_0000,
        pow256(8) == 0x1_0000_0000_0000_0000,
{
    assert(pow256(0) == 1);
    assert(pow256(1) == 0x100 * pow256(0));
    assert(pow256(2) == 0x100 * pow256(1));
    assert(pow256(3) == 0x100 * pow256(2));
    assert(pow256(4) == 0x100 * pow256(3));
    assert(pow256(5) == 0x100 * pow256(4));
    assert(pow256(6) == 0x100 * pow256(5));
    assert(pow256(7) == 0x100 * pow256(6));
    assert(pow256(8) == 0x100 * pow256(7));
}

/// Appends a `u16`, big-endian.
pub fn write_u16_be(out: &mut Vec<u8>, v: u16)
    ensures
        final(out)@ == old(out)@ + spec_be_bytes(v as int, 2),
{
    write_be_bytes(out, v as u64, 2);
}

/// Appends a `u64`, big-endian.
pub fn write_u64_be(out: &mut Vec<u8>, v: u64)
    ensures
        final(out)@ == old(out)@ + spec_be_bytes(v as int, 8),
{
    write_be_bytes(out, v, 8);
}

/// Appends an `i64` in two's complement, big-endian: the bytes of the
/// value taken unsigned.
pub fn write_i64_be(out: &mut Vec<u8>, v: i64)
    ensures
        final(out)@ == old(out)@ + spec_be_bytes((v as u64) as int, 8),
{
    write_be_bytes(
        out,
        #[verifier::truncate]
        (v as u64),
        8,
    );
}

/// Reads a big-endian `u16` at `pos`, returning the position just past it.
pub fn read_u16_be(buf: &Vec<u8>, pos: usize) -> (r: Result<(u16, usize), CodecError>)
    requires
        pos <= buf@.len(),
    ensures
        match spec_read_be(buf@, pos as int, 2) {
            Ok((v, n)) => r is Ok && r.unwrap().0 == v && r.unwrap().1 == pos + n,
            Err(e) => r == Err::<(u16, usize), CodecError>(e),
        },
{
    if buf.len() - pos < 2 {
        return Err(CodecError::UnexpectedEnd);
    }
    let v = read_be_value(buf, pos, 2);
    proof {
        lemma_pow256_values();
    }
    Ok((v as u16, pos + 2))
}

/// Reads a big-endian `u64` at `pos`, returning the position just past it.
pub fn read_u64_be(buf: &Vec<u8>, pos: usize) -> (r: Result<(u64, usize), CodecError>)
    requires
        pos <= buf@.len(),
    ensures
        match spec_read_be(buf@, pos as int, 8) {
            Ok((v, n)) => r is Ok && r.unwrap().0 == v && r.unwrap().1 == pos + n,
            Err(e) => r == Err::<(u64, usize), CodecError>(e),
        },
{
    if buf.len() - pos < 8 {
        return Err(CodecError::UnexpectedEnd);
    }
    let v = read_be_value(buf, pos, 8);
    Ok((v, pos + 8))
}

// ---------------------------------------------------------------------
// Length-prefixed strings
// ---------------------------------------------------------------------

/// Relies on `String::from_utf8` of std: it succeeds exactly on valid
/// UTF-8 input, and then decodes it; `valid_utf8` and `decode_utf8` are
/// vstd's own model of UTF-8, the same one it uses for `str`.
#[verifier::external_body]
fn string_from_utf8(v: Vec<u8>) -> (r: Option<String>)
    ensures
        r is Some <==> valid_utf8(v@),
        r is Some ==> r.unwrap()@ == decode_utf8(v@),
{
    String::from_utf8(v).ok()
}

/// The bytes a Java-edition string puts on the wire: a VarInt byte
/// length, then the UTF-8 bytes.
pub open spec fn spec_write_string(s: Seq<char>) -> Seq<u8> {
    spec_varint(encode_utf8(s).len() as int) + encode_utf8(s)
}

/// Decoding of a Java-edition string at `pos`: a VarInt length read as a
/// signed 32-bit value (a negative one can never be satisfied and is an
/// unexpected end), then that many bytes, decoded strictly as UTF-8.
/// Returns the characters and the count of bytes consumed.
pub open spec fn spec_read_string(bytes: Seq<u8>, pos: int) -> Result<
    (Seq<char>, int),
    CodecError,
> {
    match spec_read_varint(bytes, pos) {
        Err(e) => Err(e),
        Ok((v, n)) => {
            if v >= 0x8000_0000 {
                Err(CodecError::UnexpectedEnd)
            } else if bytes.len() - (pos + n) < v {
                Err(CodecError::UnexpectedEnd)
            } else {
                let data = bytes.subrange(pos + n, pos + n + v);
                if valid_utf8(data) {
                    Ok((decode_utf8(data), n + v))
                } else {
                    Err(CodecError::InvalidUtf8)
                }
            }
        },
    }
}

/// Reads a VarInt-length-prefixed UTF-8 string at `pos`, returning it
/// with the position just past it.
pub fn read_string(buf: &Vec<u8>, pos: usize) -> (r: Result<(String, usize), CodecError>)
    requires
        pos <= buf@.len(),
    ensures
        match spec_read_string(buf@, pos as int) {
            Ok((s, n)) => r is Ok && r.unwrap().0@ == s && r.unwrap().1 == pos + n,
            Err(e) => r == Err::<(String, usize), CodecError>(e),
        },
{
    let (v, body) = match read_varint_u32(buf, pos) {
        Ok(p) => p,
        Err(e) => {
            return Err(e);
        },
    };
    if v >= 0x8000_0000 {
        return Err(CodecError::UnexpectedEnd);
    }
    let needed = v as usize;
    if buf.len() - body < needed {
        return Err(CodecError::UnexpectedEnd);
    }
    let data = vstd::slice::slice_to_vec(vstd::slice::slice_subrange(
        buf.as_slice(),
        body,
        body + needed,
    ));
    match string_from_utf8(data) {
        Some(s) => Ok((s, body + needed)),
        None => Err(CodecError::InvalidUtf8),
    }
}

/// Writes a Java-edition string: its UTF-8 byte length as a VarInt, then
/// the bytes themselves. The length must fit the signed 32-bit VarInt.
pub fn write_string(out: &mut Vec<u8>, s: &str)
    requires
        s.spec_bytes().len() < 0x8000_0000,
    ensures
        final(out)@ == old(out)@ + spec_write_string(s@),
{
    let bytes = s.as_bytes();
    write_varint_u32(out, bytes.len() as u32);
    let ghost mid = out@;
    out.extend_from_slice(bytes);
    proof {
        assert(final(out)@ =~= old(out)@ + spec_write_string(s@));
    }
}

/// Decoding of a RakNet string at `pos`: a big-endian `u16` length, then
/// that many bytes, decoded strictly as UTF-8. Returns the characters
/// and the count of bytes consumed.
pub open spec fn spec_read_raknet_string(bytes: Seq<u8>, pos: int) -> Result<
    (Seq<char>, int),
    CodecError,
> {
    match spec_read_be(bytes, pos, 2) {
        Err(e) => Err(e),
        Ok((v, n)) => {
            if bytes.len() - (pos + n) < v {
                Err(CodecError::UnexpectedEnd)
            } else {
                let data = bytes.subrange(pos + n, pos + n + v);
                if valid_utf8(data) {
                    Ok((decode_utf8(data), n + v))
                } else {
                    Err(CodecError::InvalidUtf8)
                }
            }
        },
    }
}

/// Reads a RakNet `u16`-length-prefixed UTF-8 string at `pos`, returning
/// it with the position just past it.
pub fn read_raknet_string(buf: &Vec<u8>, pos: usize) -> (r: Result<(String, usize), CodecError>)
    requires
        pos <= buf@.len(),
    ensures
        match spec_read_raknet_string(buf@, pos as int) {
            Ok((s, n)) => r is Ok && r.unwrap().0@ == s && r.unwrap().1 == pos + n,
            Err(e) => r == Err::<(String, usize), CodecError>(e),
        },
{
    let (v, body) = match read_u16_be(buf, pos) {
        Ok(p) => p,
        Err(e) => {
            return Err(e);
        },
    };
    let needed = v as usize;
    if buf.len() - body < needed {
        return Err(CodecError::UnexpectedEnd);
    }
    let data = vstd::slice::slice_to_vec(vstd::slice::slice_subrange(
        buf.as_slice(),
        body,
        body + needed,
    ));
    match string_from_utf8(data) {
        Some(s) => Ok((s, body + needed)),
        None => Err(CodecError::InvalidUtf8),
    }
}

/// Appends a whole frame: the body's length as a VarInt, then the body.
/// This is the length prefix every Java-edition packet carries.
pub fn write_payload(out: &mut Vec<u8>, body: &Vec<u8>)
    requires
        body@.len() < 0x8000_0000,
    ensures
        final(out)@ == old(out)@ + spec_varint(body@.len() as int) + body@,
{
    write_varint_u32(out, body.len() as u32);
    out.extend_from_slice(body.as_slice());
    proof {
        assert(final(out)@ =~= old(out)@ + spec_varint(body@.len() as int) + body@);
    }
}

// ---------------------------------------------------------------------
// Round trip for strings
// ---------------------------------------------------------------------

/// Round trip for the Java-edition string: any sequence of characters
/// reads back from its own wire form, and the wire form is exactly the
/// VarInt length followed by the UTF-8 bytes. This is the string half of
/// the codec law.
pub proof fn lemma_string_round_trip(s: Seq<char>)
    requires
        encode_utf8(s).len() < 0x8000_0000,
    ensures
        spec_read_string(spec_write_string(s), 0) == Ok::<(Seq<char>, int), CodecError>(
            (s, varint_len(encode_utf8(s).len() as int) + encode_utf8(s).len()),
        ),
        spec_write_string(s).len() == varint_len(encode_utf8(s).len() as int) + encode_utf8(
            s,
        ).len(),
{
    broadcast use encode_utf8_valid_utf8, encode_utf8_decode_utf8;

    let data = encode_utf8(s);
    let len = data.len() as int;
    let wire = spec_write_string(s);
    lemma_varint_at_most_five_bytes(len);
    let enc = spec_varint(len);
    assert(wire.subrange(0, varint_len(len)) =~= enc);
    lemma_read_varint_at_encoding(wire, 0, 0, 0, 1, len);
    assert((0 + len * 1) % 0x1_0000_0000 == len);
    assert(wire.subrange(varint_len(len), varint_len(len) + len) =~= data);
}

} // verus!

