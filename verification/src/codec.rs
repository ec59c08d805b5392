//! Binary codec: big-endian primitives with exact byte-level contracts.
//!
//! For a value and an active protocol version, `write_size` returns the
//! exact serialized byte length, `encode` appends exactly that many bytes,
//! and `decode` consumes exactly that many bytes from a cursor. Strings go
//! on the wire as a two-byte byte-count prefix followed by each character
//! as its Unicode scalar value in four bytes; raw payloads as a four-byte
//! byte-count prefix followed by the bytes.

use vstd::prelude::*;
use vstd::string::StrSliceExecFns;
use vstd::string::StringExecFns;

use crate::error::DecodeFailure;
use crate::error::WireError;

verus! {

/// The protocol version negotiated per call; it determines which fields
/// are present on the wire.
pub type Version = i16;

// ---------------------------------------------------------------------
// Specification: wire images of the primitives.
// ---------------------------------------------------------------------

/// Big-endian image of a 16-bit unsigned integer.
pub open spec fn be16(v: u16) -> Seq<u8> {
    seq![(v >> 8) as u8, v as u8]
}

/// Big-endian image of a 32-bit unsigned integer.
pub open spec fn be32(v: u32) -> Seq<u8> {
    seq![(v >> 24) as u8, (v >> 16) as u8, (v >> 8) as u8, v as u8]
}

/// The 16-bit unsigned integer read back from two big-endian bytes.
pub open spec fn comb16(a: u8, b: u8) -> u16 {
    ((a as u16) << 8) | (b as u16)
}

/// The 32-bit unsigned integer read back from four big-endian bytes.
pub open spec fn comb32(a: u8, b: u8, c: u8, d: u8) -> u32 {
    ((a as u32) << 24) | ((b as u32) << 16) | ((c as u32) << 8) | (d as u32)
}

/// One-byte image of a boolean.
pub open spec fn bool_byte(v: bool) -> u8 {
    if v { 1u8 } else { 0u8 }
}

pub proof fn lemma_be16_comb(v: u16)
    ensures
        comb16(be16(v)[0], be16(v)[1]) == v,
{
    assert(((((v >> 8) as u8) as u16) << 8) | (((v as u8) as u16)) == v) by (bit_vector);
}

pub proof fn lemma_be32_comb(v: u32)
    ensures
        comb32(be32(v)[0], be32(v)[1], be32(v)[2], be32(v)[3]) == v,
{
    assert(((((v >> 24) as u8) as u32) << 24) | ((((v >> 16) as u8) as u32) << 16) | ((((v
        >> 8) as u8) as u32) << 8) | (((v as u8) as u32)) == v) by (bit_vector);
}

// ---------------------------------------------------------------------
// Executable primitives: append to a destination buffer.
// ---------------------------------------------------------------------

/// Appends the two big-endian bytes of `v`.
pub fn put_u16(dest: &mut Vec<u8>, v: u16)
    ensures
        final(dest)@ == old(dest)@ + be16(v),
{
    dest.push((v >> 8) as u8);
    dest.push(v as u8);
    proof {
        assert(final(dest)@ =~= old(dest)@ + be16(v));
    }
}

/// Appends the four big-endian bytes of `v`.
pub fn put_u32(dest: &mut Vec<u8>, v: u32)
    ensures
        final(dest)@ == old(dest)@ + be32(v),
{
    dest.push((v >> 24) as u8);
    dest.push((v >> 16) as u8);
    dest.push((v >> 8) as u8);
    dest.push(v as u8);
    proof {
        assert(final(dest)@ =~= old(dest)@ + be32(v));
    }
}

/// Appends the two big-endian bytes of a signed 16-bit integer
/// (two's complement).
pub fn put_i16(dest: &mut Vec<u8>, v: i16)
    ensures
        final(dest)@ == old(dest)@ + be16(v as u16),
{
    put_u16(dest, v as u16);
}

/// Appends the four big-endian bytes of a signed 32-bit integer
/// (two's complement).
pub fn put_i32(dest: &mut Vec<u8>, v: i32)
    ensures
        final(dest)@ == old(dest)@ + be32(v as u32),
{
    put_u32(dest, v as u32);
}

/// Appends the one-byte image of a boolean.
pub fn put_bool(dest: &mut Vec<u8>, v: bool)
    ensures
        final(dest)@ == old(dest)@ + seq![bool_byte(v)],
{
    dest.push(if v { 1u8 } else { 0u8 });
    proof {
        assert(final(dest)@ =~= old(dest)@ + seq![bool_byte(v)]);
    }
}

// ---------------------------------------------------------------------
// Executable primitives: consume from a source cursor.
// ---------------------------------------------------------------------

/// Reads two big-endian bytes at the cursor; fails with `BufferUnderflow`,
/// leaving the cursor in place, when fewer than two bytes remain.
pub fn get_u16(src: &Vec<u8>, pos: &mut usize) -> (r: Result<u16, WireError>)
    requires
        *old(pos) <= src@.len(),
    ensures
        *old(pos) + 2 <= src@.len() ==> r == Ok::<u16, WireError>(
            comb16(src@[*old(pos) as int], src@[*old(pos) + 1]),
        ) && *final(pos) == *old(pos) + 2,
        *old(pos) + 2 > src@.len() ==> r == Err::<u16, WireError>(WireError::BufferUnderflow)
            && *final(pos) == *old(pos),
{
    if src.len() - *pos >= 2 {
        let a = src[*pos];
        let b = src[*pos + 1];
        *pos = *pos + 2;
        Ok(((a as u16) << 8) | (b as u16))
    } else {
        Err(WireError::BufferUnderflow)
    }
}

/// Reads four big-endian bytes at the cursor; fails with `BufferUnderflow`,
/// leaving the cursor in place, when fewer than four bytes remain.
pub fn get_u32(src: &Vec<u8>, pos: &mut usize) -> (r: Result<u32, WireError>)
    requires
        *old(pos) <= src@.len(),
    ensures
        *old(pos) + 4 <= src@.len() ==> r == Ok::<u32, WireError>(
            comb32(
                src@[*old(pos) as int],
                src@[*old(pos) + 1],
                src@[*old(pos) + 2],
                src@[*old(pos) + 3],
            ),
        ) && *final(pos) == *old(pos) + 4,
        *old(pos) + 4 > src@.len() ==> r == Err::<u32, WireError>(WireError::BufferUnderflow)
            && *final(pos) == *old(pos),
{
    if src.len() - *pos >= 4 {
        let a = src[*pos];
        let b = src[*pos + 1];
        let c = src[*pos + 2];
        let d = src[*pos + 3];
        *pos = *pos + 4;
        Ok(((a as u32) << 24) | ((b as u32) << 16) | ((c as u32) << 8) | (d as u32))
    } else {
        Err(WireError::BufferUnderflow)
    }
}

/// Reads a signed 32-bit integer (two's complement big-endian).
pub fn get_i32(src: &Vec<u8>, pos: &mut usize) -> (r: Result<i32, WireError>)
    requires
        *old(pos) <= src@.len(),
    ensures
        *old(pos) + 4 <= src@.len() ==> r == Ok::<i32, WireError>(
            comb32(
                src@[*old(pos) as int],
                src@[*old(pos) + 1],
                src@[*old(pos) + 2],
                src@[*old(pos) + 3],
            ) as i32,
        ) && *final(pos) == *old(pos) + 4,
        *old(pos) + 4 > src@.len() ==> r == Err::<i32, WireError>(WireError::BufferUnderflow)
            && *final(pos) == *old(pos),
{
    match get_u32(src, pos) {
        Ok(v) => Ok(v as i32),
        Err(e) => Err(e),
    }
}

/// Specification-level decode of a boolean byte: a closed set, zero or
/// one; any other byte is invalid data.
pub open spec fn bool_parse(b: Seq<u8>) -> Result<(bool, int), DecodeFailure> {
    if b.len() < 1 {
        Err(DecodeFailure::Short)
    } else if b[0] == 0 {
        Ok((false, 1))
    } else if b[0] == 1 {
        Ok((true, 1))
    } else {
        Err(DecodeFailure::BadData)
    }
}

/// Reads one boolean byte at the cursor; zero and one are the only
/// values of the closed set.
pub fn get_bool(src: &Vec<u8>, pos: &mut usize) -> (r: Result<bool, WireError>)
    requires
        *old(pos) <= src@.len(),
    ensures
        *old(pos) <= *final(pos) <= src@.len(),
        ({
            let rest = src@.skip(*old(pos) as int);
            match bool_parse(rest) {
                Ok((v, n)) => (r matches Ok(w) && w == v) && *final(pos) == *old(pos) + n,
                Err(f) => {
                    &&& r is Err
                    &&& *final(pos) == *old(pos)
                    &&& (f == DecodeFailure::Short <==> r == Err::<bool, WireError>(
                        WireError::BufferUnderflow,
                    ))
                    &&& (f != DecodeFailure::Short ==> (r matches Err(
                        WireError::InvalidData { field },
                    ) && field@ == "bool"@))
                },
            }
        }),
{
    if *pos < src.len() {
        let b = src[*pos];
        if b == 0 {
            *pos = *pos + 1;
            Ok(false)
        } else if b == 1 {
            *pos = *pos + 1;
            Ok(true)
        } else {
            Err(WireError::InvalidData { field: String::from_str("bool") })
        }
    } else {
        Err(WireError::BufferUnderflow)
    }
}

// ---------------------------------------------------------------------
// Strings on the wire: a two-byte byte-count prefix, then each character
// as its Unicode scalar value in four big-endian bytes.
// ---------------------------------------------------------------------

/// Whether `x` is a Unicode scalar value, that is, the value of a `char`.
pub open spec fn is_scalar(x: u32) -> bool {
    ((x < 0xD800) || (0xE000 <= x && x < 0x110000))
}

/// A character's scalar value is a Unicode scalar value, and the cast
/// back to `char` returns the same character.
pub proof fn lemma_char_scalar_id(c: char)
    ensures
        is_scalar(c as u32),
        ((c as u32) as char) == c,
{
}

/// Wire image of a character sequence: four bytes per character.
pub open spec fn chars_wire(s: Seq<char>) -> Seq<u8>
    decreases s.len(),
{
    if s.len() == 0 {
        Seq::empty()
    } else {
        be32(s[0] as u32) + chars_wire(s.skip(1))
    }
}

/// Wire image of a string: byte-count prefix, then the characters.
pub open spec fn str_bytes(s: Seq<char>) -> Seq<u8> {
    be16((4 * s.len()) as u16) + chars_wire(s)
}

/// The largest character count whose byte count fits the two-byte prefix.
pub const MAX_STR_CHARS: usize = 16383;

/// Whether a string's byte count fits its length prefix.
pub open spec fn str_fits(s: Seq<char>) -> bool {
    s.len() <= MAX_STR_CHARS
}

/// Specification-level decode of a character region of known count.
pub open spec fn chars_parse(b: Seq<u8>, count: nat) -> Result<Seq<char>, DecodeFailure>
    decreases count,
{
    if count == 0 {
        Ok(Seq::empty())
    } else if b.len() < 4 {
        Err(DecodeFailure::Short)
    } else {
        let x = comb32(b[0], b[1], b[2], b[3]);
        if !is_scalar(x) {
            Err(DecodeFailure::BadData)
        } else {
            match chars_parse(b.skip(4), (count - 1) as nat) {
                Ok(s) => Ok(seq![x as char] + s),
                Err(f) => Err(f),
            }
        }
    }
}

/// Specification-level decode of a wire string at the head of `b`:
/// the characters and the bytes consumed.
pub open spec fn str_parse(b: Seq<u8>) -> Result<(Seq<char>, int), DecodeFailure> {
    if b.len() < 2 {
        Err(DecodeFailure::Short)
    } else {
        let bl = comb16(b[0], b[1]) as int;
        if bl % 4 != 0 {
            Err(DecodeFailure::BadData)
        } else {
            match chars_parse(b.skip(2), (bl / 4) as nat) {
                Ok(s) => Ok((s, 2 + bl)),
                Err(f) => Err(f),
            }
        }
    }
}

pub proof fn lemma_chars_wire_len(s: Seq<char>)
    ensures
        chars_wire(s).len() == 4 * s.len(),
    decreases s.len(),
{
    if s.len() > 0 {
        lemma_chars_wire_len(s.skip(1));
    }
}

pub proof fn lemma_chars_wire_snoc(s: Seq<char>, c: char)
    ensures
        chars_wire(s.push(c)) == chars_wire(s) + be32(c as u32),
    decreases s.len(),
{
    if s.len() == 0 {
        assert(s.push(c).skip(1) =~= Seq::<char>::empty());
        assert(chars_wire(s.push(c)) == be32(s.push(c)[0] as u32) + chars_wire(
            s.push(c).skip(1),
        ));
        assert(s.push(c)[0] == c);
        assert(chars_wire(s.push(c)) =~= chars_wire(s) + be32(c as u32));
    } else {
        let t = s.skip(1);
        assert(s.push(c)[0] == s[0]);
        assert(s.push(c).skip(1) =~= t.push(c));
        lemma_chars_wire_snoc(t, c);
        assert(chars_wire(s.push(c)) == be32(s[0] as u32) + (chars_wire(t) + be32(c as u32)));
        assert(chars_wire(s) == be32(s[0] as u32) + chars_wire(t));
        assert(be32(s[0] as u32) + (chars_wire(t) + be32(c as u32)) =~= (be32(s[0] as u32)
            + chars_wire(t)) + be32(c as u32));
    }
}

/// Decoding a character region that begins with `chars_wire(s)` yields
/// exactly `s`.
pub proof fn lemma_chars_parse_wire(s: Seq<char>, rest: Seq<u8>)
    ensures
        chars_parse(chars_wire(s) + rest, s.len()) == Ok::<Seq<char>, DecodeFailure>(s),
    decreases s.len(),
{
    if s.len() == 0 {
        assert(s =~= Seq::<char>::empty());
    } else {
        let b = chars_wire(s) + rest;
        let x0 = s[0] as u32;
        lemma_chars_wire_len(s.skip(1));
        assert(b[0] == be32(x0)[0] && b[1] == be32(x0)[1] && b[2] == be32(x0)[2] && b[3] == be32(
            x0,
        )[3]);
        lemma_be32_comb(x0);
        assert(comb32(b[0], b[1], b[2], b[3]) == x0);
        assert(b.skip(4) =~= chars_wire(s.skip(1)) + rest);
        lemma_chars_parse_wire(s.skip(1), rest);
        lemma_char_scalar_id(s[0]);
        assert((x0 as char) == s[0]);
        assert(seq![(x0 as char)] + s.skip(1) =~= s);
    }
}

/// Round trip for wire strings: parsing bytes that begin with
/// `str_bytes(s)` yields `s` and consumes exactly the image.
#[verifier::rlimit(50)]
pub proof fn lemma_str_parse_wire(s: Seq<char>, rest: Seq<u8>)
    requires
        str_fits(s),
    ensures
        str_parse(str_bytes(s) + rest) == Ok::<(Seq<char>, int), DecodeFailure>(
            (s, 2 + 4 * s.len() as int),
        ),
{
    let b = str_bytes(s) + rest;
    let bl16 = (4 * s.len()) as u16;
    lemma_chars_wire_len(s);
    assert(b[0] == be16(bl16)[0] && b[1] == be16(bl16)[1]);
    lemma_be16_comb(bl16);
    assert(comb16(b[0], b[1]) == bl16);
    assert(b.skip(2) =~= chars_wire(s) + rest);
    lemma_chars_parse_wire(s, rest);
}

/// Relies on char::from_u32: it returns Some exactly on the Unicode
/// scalar values (below 0xD800, or from 0xE000 up to 0x110000), and the
/// character it returns has that scalar value.
#[verifier::external_body]
fn char_from_scalar(x: u32) -> (r: Option<char>)
    ensures
        r is Some <==> is_scalar(x),
        r matches Some(c) ==> c as u32 == x,
{
    char::from_u32(x)
}

/// Relies on String::push: it appends exactly the one character given.
#[verifier::external_body]
pub(crate) fn push_char(s: &mut String, c: char)
    ensures
        final(s)@ == old(s)@.push(c),
{
    s.push(c);
}

/// Appends the wire image of a string; fails with `TooLong`, leaving the
/// buffer untouched, when the byte count overflows the two-byte prefix.
pub fn put_str(dest: &mut Vec<u8>, s: &str) -> (r: Result<(), WireError>)
    ensures
        r is Ok <==> str_fits(s@),
        r is Ok ==> final(dest)@ == old(dest)@ + str_bytes(s@),
        r is Err ==> final(dest)@ == old(dest)@ && (r matches Err(WireError::TooLong { .. })),
{
    let n = s.unicode_len();
    if n > MAX_STR_CHARS {
        return Err(WireError::TooLong { field: String::from_str("string") });
    }
    put_u16(dest, (4 * n) as u16);
    let mut i: usize = 0;
    while i < n
        invariant
            i <= n,
            n == s@.len(),
            n <= MAX_STR_CHARS,
            dest@ == old(dest)@ + be16((4 * s@.len()) as u16) + chars_wire(s@.take(i as int)),
        decreases n - i,
    {
        let c = s.get_char(i);
        put_u32(dest, c as u32);
        proof {
            lemma_chars_wire_snoc(s@.take(i as int), c);
            assert(s@.take(i + 1) =~= s@.take(i as int).push(c));
        }
        i = i + 1;
    }
    proof {
        assert(s@.take(n as int) =~= s@);
        assert(old(dest)@ + be16((4 * s@.len()) as u16) + chars_wire(s@) =~= old(dest)@
            + str_bytes(s@));
    }
    Ok(())
}

/// Reads a wire string at the cursor. Underflow leaves nothing populated;
/// a byte count that is no multiple of four, or four bytes that name no
/// Unicode scalar value, fail as invalid data.
pub fn get_str(src: &Vec<u8>, pos: &mut usize) -> (r: Result<String, WireError>)
    requires
        *old(pos) <= src@.len(),
    ensures
        *old(pos) <= *final(pos) <= src@.len(),
        ({
            let rest = src@.skip(*old(pos) as int);
            match str_parse(rest) {
                Ok((s, n)) => (r matches Ok(v) && v@ == s) && *final(pos) == *old(pos) + n,
                Err(f) => {
                    &&& r is Err
                    &&& (f == DecodeFailure::Short <==> r == Err::<String, WireError>(
                        WireError::BufferUnderflow,
                    ))
                    &&& (f != DecodeFailure::Short ==> (r matches Err(
                        WireError::InvalidData { field },
                    ) && field@ == "string"@))
                },
            }
        }),
{
    let ghost rest = src@.skip(*old(pos) as int);
    let len16 = match get_u16(src, pos) {
        Ok(v) => v,
        Err(e) => {
            return Err(e);
        },
    };
    proof {
        assert(rest[0] == src@[*old(pos) as int] && rest[1] == src@[*old(pos) + 1]);
        assert(comb16(rest[0], rest[1]) == len16);
    }
    if len16 % 4 != 0 {
        return Err(WireError::InvalidData { field: String::from_str("string") });
    }
    let nchars: usize = (len16 / 4) as usize;
    let ghost count = nchars as nat;
    proof {
        assert(len16 as int == 4 * count);
        assert(rest.skip(2) =~= src@.skip(*old(pos) + 2));
    }
    let mut out = String::new();
    let mut i: usize = 0;
    while i < nchars
        invariant
            i <= nchars,
            count == nchars as nat,
            len16 as int == 4 * count,
            *pos == *old(pos) + 2 + 4 * i,
            *pos <= src@.len(),
            rest == src@.skip(*old(pos) as int),
            rest.len() >= 2,
            comb16(rest[0], rest[1]) == len16,
            out@.len() == i,
            ({
                match chars_parse(src@.skip(*pos as int), (count - i) as nat) {
                    Ok(t) => chars_parse(rest.skip(2), count) == Ok::<Seq<char>, DecodeFailure>(
                        out@ + t,
                    ),
                    Err(f) => chars_parse(rest.skip(2), count) == Err::<Seq<char>, DecodeFailure>(
                        f,
                    ),
                }
            }),
        decreases nchars - i,
    {
        let ghost pos_at = *pos as int;
        let ghost region = src@.skip(pos_at);
        let x = match get_u32(src, pos) {
            Ok(v) => v,
            Err(e) => {
                proof {
                    // fewer than four bytes remain: the region is short
                    assert(region.len() < 4);
                    assert(chars_parse(region, (count - i) as nat) == Err::<
                        Seq<char>,
                        DecodeFailure,
                    >(DecodeFailure::Short));
                }
                return Err(e);
            },
        };
        proof {
            assert(region[0] == src@[pos_at] && region[1] == src@[pos_at + 1] && region[2]
                == src@[pos_at + 2] && region[3] == src@[pos_at + 3]);
            assert(comb32(region[0], region[1], region[2], region[3]) == x);
        }
        let c = match char_from_scalar(x) {
            Some(c) => c,
            None => {
                proof {
                    assert(chars_parse(region, (count - i) as nat) == Err::<
                        Seq<char>,
                        DecodeFailure,
                    >(DecodeFailure::BadData));
                }
                return Err(WireError::InvalidData { field: String::from_str("string") });
            },
        };
        proof {
            lemma_char_scalar_id(c);
            assert((x as char) == c);
            assert(region.skip(4) =~= src@.skip(pos_at + 4));
        }
        let ghost out_before = out@;
        push_char(&mut out, c);
        proof {
            let tail = src@.skip(pos_at + 4);
            match chars_parse(tail, (count - (i + 1)) as nat) {
                Ok(t2) => {
                    assert(chars_parse(region, (count - i) as nat) == Ok::<
                        Seq<char>,
                        DecodeFailure,
                    >(seq![c] + t2));
                    assert(out_before + (seq![c] + t2) =~= out@ + t2);
                },
                Err(f) => {
                    assert(chars_parse(region, (count - i) as nat) == Err::<
                        Seq<char>,
                        DecodeFailure,
                    >(f));
                },
            }
        }
        i = i + 1;
    }
    proof {
        assert(chars_parse(src@.skip(*pos as int), 0) == Ok::<Seq<char>, DecodeFailure>(
            Seq::empty(),
        ));
        assert(out@ + Seq::<char>::empty() =~= out@);
        assert(chars_parse(rest.skip(2), count) == Ok::<Seq<char>, DecodeFailure>(out@));
    }
    Ok(out)
}

// ---------------------------------------------------------------------
// Raw byte payloads: a four-byte byte-count prefix, then the bytes.
// ---------------------------------------------------------------------

/// Wire image of a raw payload.
pub open spec fn bytes_wire(p: Seq<u8>) -> Seq<u8> {
    be32(p.len() as u32) + p
}

/// Whether a payload's byte count fits its four-byte length prefix.
pub open spec fn bytes_fits(p: Seq<u8>) -> bool {
    p.len() <= 0xFFFF_FFFF
}

/// Specification-level decode of a raw payload at the head of `b`.
pub open spec fn bytes_parse(b: Seq<u8>) -> Result<(Seq<u8>, int), DecodeFailure> {
    if b.len() < 4 {
        Err(DecodeFailure::Short)
    } else {
        let n = comb32(b[0], b[1], b[2], b[3]) as int;
        if b.len() < 4 + n {
            Err(DecodeFailure::Short)
        } else {
            Ok((b.subrange(4, 4 + n), 4 + n))
        }
    }
}

/// Round trip for raw payloads.
#[verifier::rlimit(50)]
pub proof fn lemma_bytes_parse_wire(p: Seq<u8>, rest: Seq<u8>)
    requires
        bytes_fits(p),
    ensures
        bytes_parse(bytes_wire(p) + rest) == Ok::<(Seq<u8>, int), DecodeFailure>(
            (p, 4 + p.len() as int),
        ),
{
    let b = bytes_wire(p) + rest;
    let n32 = p.len() as u32;
    assert(b[0] == be32(n32)[0] && b[1] == be32(n32)[1] && b[2] == be32(n32)[2] && b[3] == be32(
        n32,
    )[3]);
    lemma_be32_comb(n32);
    assert(b.subrange(4, 4 + p.len() as int) =~= p);
}

/// Appends the wire image of a raw payload; fails with `TooLong`, leaving
/// the buffer untouched, when the byte count overflows the prefix.
pub fn put_bytes(dest: &mut Vec<u8>, p: &Vec<u8>) -> (r: Result<(), WireError>)
    ensures
        r is Ok <==> bytes_fits(p@),
        r is Ok ==> final(dest)@ == old(dest)@ + bytes_wire(p@),
        r is Err ==> final(dest)@ == old(dest)@ && (r matches Err(WireError::TooLong { .. })),
{
    if p.len() > 0xFFFF_FFFFusize {
        return Err(WireError::TooLong { field: String::from_str("payload") });
    }
    put_u32(dest, p.len() as u32);
    let mut i: usize = 0;
    while i < p.len()
        invariant
            i <= p@.len(),
            dest@ == old(dest)@ + be32(p@.len() as u32) + p@.take(i as int),
        decreases p@.len() - i,
    {
        let b = p[i];
        dest.push(b);
        proof {
            assert(p@.take(i + 1) =~= p@.take(i as int).push(b));
            assert(old(dest)@ + be32(p@.len() as u32) + p@.take(i as int) + seq![b] =~= old(
                dest,
            )@ + be32(p@.len() as u32) + p@.take(i + 1));
        }
        i = i + 1;
    }
    proof {
        assert(p@.take(p@.len() as int) =~= p@);
        assert(old(dest)@ + be32(p@.len() as u32) + p@ =~= old(dest)@ + bytes_wire(p@));
    }
    Ok(())
}

/// Reads a raw payload at the cursor; fails with `BufferUnderflow`,
/// when either the prefix or the payload bytes are not all available.
pub fn get_bytes(src: &Vec<u8>, pos: &mut usize) -> (r: Result<Vec<u8>, WireError>)
    requires
        *old(pos) <= src@.len(),
    ensures
        *old(pos) <= *final(pos) <= src@.len(),
        ({
            let rest = src@.skip(*old(pos) as int);
            match bytes_parse(rest) {
                Ok((p, n)) => (r matches Ok(v) && v@ == p) && *final(pos) == *old(pos) + n,
                Err(_) => r == Err::<Vec<u8>, WireError>(WireError::BufferUnderflow),
            }
        }),
{
    let ghost rest = src@.skip(*old(pos) as int);
    let len32 = match get_u32(src, pos) {
        Ok(v) => v,
        Err(e) => {
            return Err(e);
        },
    };
    proof {
        assert(rest[0] == src@[*old(pos) as int] && rest[1] == src@[*old(pos) + 1] && rest[2]
            == src@[*old(pos) + 2] && rest[3] == src@[*old(pos) + 3]);
    }
    let n = len32 as usize;
    if src.len() - *pos < n {
        return Err(WireError::BufferUnderflow);
    }
    let start = *pos;
    let mut out: Vec<u8> = Vec::new();
    let mut i: usize = 0;
    while i < n
        invariant
            i <= n,
            start + n <= src@.len(),
            src@.len() <= usize::MAX,
            out@ == src@.subrange(start as int, start as int + i),
        decreases n - i,
    {
        let b = src[start + i];
        out.push(b);
        proof {
            assert(src@.subrange(start as int, start as int + i + 1) =~= src@.subrange(
                start as int,
                start as int + i,
            ).push(b));
        }
        i = i + 1;
    }
    *pos = start + n;
    proof {
        assert(rest.subrange(4, 4 + n as int) =~= src@.subrange(start as int, start as int
            + n));
    }
    Ok(out)
}

// ---------------------------------------------------------------------
// The binary encode/decode contract with version gating.
// ---------------------------------------------------------------------

/// The binary codec contract. For a value and an active protocol version:
/// `write_size` returns the exact serialized byte length, `encode` appends
/// exactly those bytes, and `decode` consumes exactly those bytes from a
/// source cursor. Fields whose minimum version exceeds the active version
/// are absent from the wire and decode to their defaults. All contracts
/// speak of the value's mathematical model (its view).
pub trait WireCodec: View + Sized {
    /// The exact wire image of a value's model at `version`.
    spec fn wire_of(m: Self::V, version: Version) -> Seq<u8>;

    /// Whether the model's variable-length parts fit their length prefixes
    /// at `version`; encoding succeeds exactly on such values.
    spec fn fits(m: Self::V, version: Version) -> bool;

    /// The model that decoding the value's own wire image yields at
    /// `version`: the model itself, with fields the version gates off
    /// reduced to their defaults. Identity for types without gated fields.
    spec fn decoded_at(m: Self::V, version: Version) -> Self::V;

    /// Specification-level decode of a byte suffix: the decoded model and
    /// the bytes consumed, or why the bytes decode to nothing.
    spec fn parse(b: Seq<u8>, version: Version) -> Result<(Self::V, int), DecodeFailure>;

    /// Round trip: bytes that begin with a value's wire image parse to
    /// that value (gated fields at their defaults), consuming exactly the
    /// image, whatever follows it.
    proof fn lemma_parse_wire(m: Self::V, rest: Seq<u8>, version: Version)
        requires
            Self::fits(m, version),
        ensures
            Self::parse(Self::wire_of(m, version) + rest, version) == Ok::<
                (Self::V, int),
                DecodeFailure,
            >((Self::decoded_at(m, version), Self::wire_of(m, version).len() as int)),
    ;

    /// The exact serialized byte length at `version`. The length must fit
    /// the machine's word for the count to be representable.
    fn write_size(&self, version: Version) -> (n: usize)
        requires
            Self::fits(self@, version),
            Self::wire_of(self@, version).len() <= usize::MAX,
        ensures
            n == Self::wire_of(self@, version).len(),
    ;

    /// Appends the wire image; on failure the buffer is untouched.
    fn encode(&self, dest: &mut Vec<u8>, version: Version) -> (r: Result<(), WireError>)
        ensures
            r is Ok <==> Self::fits(self@, version),
            r is Ok ==> final(dest)@ == old(dest)@ + Self::wire_of(self@, version),
            r is Err ==> final(dest)@ == old(dest)@,
    ;

    /// Consumes one wire image from the cursor and populates the target in
    /// place. Underflow is reported exactly when the specification-level
    /// parse runs short of bytes.
    fn decode(&mut self, src: &Vec<u8>, pos: &mut usize, version: Version) -> (r: Result<
        (),
        WireError,
    >)
        requires
            *old(pos) <= src@.len(),
        ensures
            *old(pos) <= *final(pos) <= src@.len(),
            ({
                let rest = src@.skip(*old(pos) as int);
                match Self::parse(rest, version) {
                    Ok((m, n)) => (r is Ok && final(self)@ == m) && *final(pos) == *old(pos) + n,
                    Err(f) => r is Err && (f == DecodeFailure::Short <==> r == Err::<
                        (),
                        WireError,
                    >(WireError::BufferUnderflow)),
                }
            }),
    ;
}

/// Strings encode as their wire image at every version; no field of a
/// string is version-gated.
impl WireCodec for String {
    open spec fn wire_of(m: Seq<char>, version: Version) -> Seq<u8> {
        str_bytes(m)
    }

    open spec fn fits(m: Seq<char>, version: Version) -> bool {
        str_fits(m)
    }

    open spec fn decoded_at(m: Seq<char>, version: Version) -> Seq<char> {
        m
    }

    open spec fn parse(b: Seq<u8>, version: Version) -> Result<(Seq<char>, int), DecodeFailure> {
        str_parse(b)
    }

    proof fn lemma_parse_wire(m: Seq<char>, rest: Seq<u8>, version: Version) {
        lemma_str_parse_wire(m, rest);
        lemma_chars_wire_len(m);
    }

    fn write_size(&self, version: Version) -> (n: usize) {
        proof {
            lemma_chars_wire_len(self@);
        }
        2 + 4 * self.as_str().unicode_len()
    }

    fn encode(&self, dest: &mut Vec<u8>, version: Version) -> (r: Result<(), WireError>) {
        put_str(dest, self.as_str())
    }

    fn decode(&mut self, src: &Vec<u8>, pos: &mut usize, version: Version) -> (r: Result<
        (),
        WireError,
    >) {
        match get_str(src, pos) {
            Ok(v) => {
                *self = v;
                Ok(())
            },
            Err(e) => Err(e),
        }
    }
}

} // verus!
