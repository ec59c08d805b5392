//! Tagged-union codec: the delete key of a custom stream unit.
//!
//! Each variant carries a stable string discriminator, independent of
//! declaration order. Encode writes the discriminator, then the variant's
//! payload. Decode reads the discriminator, dispatches to the matching
//! variant, and fails with `UnknownVariant` — naming the offending tag and
//! the sum type — on any other discriminator, substituting no partial
//! variant.

use vstd::prelude::*;
use vstd::string::StrSliceExecFns;
use vstd::string::StringExecFns;

use crate::codec::MAX_STR_CHARS;
use crate::codec::Version;
use crate::codec::WireCodec;
use crate::codec::be32;
use crate::codec::comb32;
use crate::codec::get_i32;
use crate::codec::get_str;
use crate::codec::lemma_be32_comb;
use crate::codec::lemma_chars_wire_len;
use crate::codec::lemma_str_parse_wire;
use crate::codec::push_char;
use crate::codec::put_i32;
use crate::codec::put_str;
use crate::codec::str_bytes;
use crate::codec::str_fits;
use crate::codec::str_parse;
use crate::error::DecodeFailure;
use crate::error::WireError;

verus! {

/// Addressing scheme for deleting a custom stream unit: by name or by
/// numeric identity.
#[derive(Debug, Clone, PartialEq, Eq)]
pub enum CustomSpuKey {
    Name(String),
    Id(i32),
}

/// Mathematical model of a [`CustomSpuKey`].
pub enum KeyModel {
    Name(Seq<char>),
    Id(i32),
}

impl View for CustomSpuKey {
    type V = KeyModel;

    open spec fn view(&self) -> KeyModel {
        match self {
            CustomSpuKey::Name(s) => KeyModel::Name(s@),
            CustomSpuKey::Id(i) => KeyModel::Id(*i),
        }
    }
}

impl KeyModel {
    /// The wire discriminator of the variant; stable across protocol
    /// versions and independent of declaration order.
    pub open spec fn type_string_spec(self) -> Seq<char> {
        match self {
            KeyModel::Name(_) => "Name"@,
            KeyModel::Id(_) => "Id"@,
        }
    }
}

impl CustomSpuKey {
    /// The wire discriminator of this key's variant.
    pub fn type_string(&self) -> (r: &'static str)
        ensures
            r@ == self@.type_string_spec(),
    {
        match self {
            CustomSpuKey::Name(_) => "Name",
            CustomSpuKey::Id(_) => "Id",
        }
    }
}

/// The default key is the identity variant with a neutral value, so that
/// a decode target can be constructed before any bytes are read.
impl Default for CustomSpuKey {
    fn default() -> (r: Self)
        ensures
            r@ == KeyModel::Id(0),
    {
        CustomSpuKey::Id(0)
    }
}

impl WireCodec for CustomSpuKey {
    /// Discriminator string, then the variant's own payload: a wire string
    /// for a name, four big-endian two's-complement bytes for an identity.
    open spec fn wire_of(m: KeyModel, version: Version) -> Seq<u8> {
        match m {
            KeyModel::Name(s) => str_bytes("Name"@) + str_bytes(s),
            KeyModel::Id(i) => str_bytes("Id"@) + be32(i as u32),
        }
    }

    open spec fn fits(m: KeyModel, version: Version) -> bool {
        match m {
            KeyModel::Name(s) => str_fits(s),
            KeyModel::Id(_) => true,
        }
    }

    /// No field of a key is version-gated.
    open spec fn decoded_at(m: KeyModel, version: Version) -> KeyModel {
        m
    }

    open spec fn parse(b: Seq<u8>, version: Version) -> Result<(KeyModel, int), DecodeFailure> {
        match str_parse(b) {
            Err(f) => Err(f),
            Ok((tag, n)) => if tag == "Name"@ {
                match str_parse(b.skip(n)) {
                    Ok((s, m2)) => Ok((KeyModel::Name(s), n + m2)),
                    Err(f) => Err(f),
                }
            } else if tag == "Id"@ {
                if b.skip(n).len() < 4 {
                    Err(DecodeFailure::Short)
                } else {
                    let t = b.skip(n);
                    Ok((KeyModel::Id(comb32(t[0], t[1], t[2], t[3]) as i32), n + 4))
                }
            } else {
                Err(DecodeFailure::BadTag)
            },
        }
    }

    proof fn lemma_parse_wire(m: KeyModel, rest: Seq<u8>, version: Version) {
        reveal_strlit("Name");
        reveal_strlit("Id");
        match m {
            KeyModel::Name(s) => {
                lemma_chars_wire_len("Name"@);
                lemma_chars_wire_len(s);
                let b = Self::wire_of(m, version) + rest;
                assert(b =~= str_bytes("Name"@) + (str_bytes(s) + rest));
                lemma_str_parse_wire("Name"@, str_bytes(s) + rest);
                let n = 2 + 4 * "Name"@.len() as int;
                assert(b.skip(n) =~= str_bytes(s) + rest);
                lemma_str_parse_wire(s, rest);
            },
            KeyModel::Id(i) => {
                lemma_chars_wire_len("Id"@);
                let b = Self::wire_of(m, version) + rest;
                assert(b =~= str_bytes("Id"@) + (be32(i as u32) + rest));
                lemma_str_parse_wire("Id"@, be32(i as u32) + rest);
                let n = 2 + 4 * "Id"@.len() as int;
                assert("Id"@ != "Name"@);
                let t = b.skip(n);
                assert(t =~= be32(i as u32) + rest);
                assert(t[0] == be32(i as u32)[0] && t[1] == be32(i as u32)[1] && t[2] == be32(
                    i as u32,
                )[2] && t[3] == be32(i as u32)[3]);
                lemma_be32_comb(i as u32);
                assert((i as u32) as i32 == i) by (bit_vector);
            },
        }
    }

    fn write_size(&self, version: Version) -> (n: usize) {
        proof {
            reveal_strlit("Name");
            reveal_strlit("Id");
            lemma_chars_wire_len("Name"@);
            lemma_chars_wire_len("Id"@);
        }
        match self {
            CustomSpuKey::Name(s) => {
                proof {
                    lemma_chars_wire_len(s@);
                }
                18 + (2 + 4 * s.as_str().unicode_len())
            },
            CustomSpuKey::Id(_) => 14,
        }
    }

    fn encode(&self, dest: &mut Vec<u8>, version: Version) -> (r: Result<(), WireError>) {
        proof {
            reveal_strlit("Name");
            reveal_strlit("Id");
        }
        match self {
            CustomSpuKey::Name(s) => {
                if s.as_str().unicode_len() > MAX_STR_CHARS {
                    return Err(WireError::TooLong { field: String::from_str("string") });
                }
                match put_str(dest, "Name") {
                    Ok(()) => {},
                    Err(e) => {
                        return Err(e);
                    },
                }
                match put_str(dest, s.as_str()) {
                    Ok(()) => {},
                    Err(e) => {
                        return Err(e);
                    },
                }
                proof {
                    assert(dest@ =~= old(dest)@ + (str_bytes("Name"@) + str_bytes(s@)));
                }
                Ok(())
            },
            CustomSpuKey::Id(i) => {
                match put_str(dest, "Id") {
                    Ok(()) => {},
                    Err(e) => {
                        return Err(e);
                    },
                }
                put_i32(dest, *i);
                proof {
                    assert(dest@ =~= old(dest)@ + (str_bytes("Id"@) + be32(*i as u32)));
                }
                Ok(())
            },
        }
    }

    fn decode(&mut self, src: &Vec<u8>, pos: &mut usize, version: Version) -> (r: Result<
        (),
        WireError,
    >)
        ensures
            r is Err ==> *final(self) == *old(self),
    {
        let ghost rest = src@.skip(*old(pos) as int);
        let tag = match get_str(src, pos) {
            Ok(t) => t,
            Err(e) => {
                return Err(e);
            },
        };
        let ghost n1 = match str_parse(rest) {
            Ok((_, n)) => n,
            Err(_) => 0int,
        };
        proof {
            assert(src@.skip(*pos as int) =~= rest.skip(n1));
        }
        let name_lit = String::from_str("Name");
        let id_lit = String::from_str("Id");
        if tag == name_lit {
            let s = match get_str(src, pos) {
                Ok(s) => s,
                Err(e) => {
                    return Err(e);
                },
            };
            *self = CustomSpuKey::Name(s);
            Ok(())
        } else if tag == id_lit {
            let ghost t = rest.skip(n1);
            let v = match get_i32(src, pos) {
                Ok(v) => v,
                Err(e) => {
                    return Err(e);
                },
            };
            proof {
                assert(t[0] == src@[*old(pos) + n1] && t[1] == src@[*old(pos) + n1 + 1] && t[2]
                    == src@[*old(pos) + n1 + 2] && t[3] == src@[*old(pos) + n1 + 3]);
            }
            *self = CustomSpuKey::Id(v);
            Ok(())
        } else {
            Err(
                WireError::UnknownVariant {
                    tag,
                    union_name: String::from_str("CustomSpuKey"),
                },
            )
        }
    }
}

/// The decimal digits of a number, most significant first.
pub open spec fn dec_digits(n: nat) -> Seq<char>
    decreases n,
{
    if n < 10 {
        seq![((n + 48) as u8) as char]
    } else {
        dec_digits(n / 10).push(((n % 10 + 48) as u8) as char)
    }
}

/// The decimal text of an integer, a minus sign leading a negative one.
pub open spec fn int_text(n: int) -> Seq<char> {
    if n < 0 {
        seq!['-'] + dec_digits((-n) as nat)
    } else {
        dec_digits(n as nat)
    }
}

/// Appends the decimal digits of `n`.
fn push_dec(n: u32, out: &mut String)
    ensures
        final(out)@ == old(out)@ + dec_digits(n as nat),
    decreases n,
{
    if n < 10 {
        push_char(out, ((n as u8) + 48) as char);
        proof {
            assert(out@ =~= old(out)@ + dec_digits(n as nat));
        }
    } else {
        push_dec(n / 10, out);
        push_char(out, (((n % 10) as u8) + 48) as char);
        proof {
            assert((n % 10 + 48) as u8 == ((n % 10) as u8) + 48);
            assert(out@ =~= old(out)@ + dec_digits(n as nat));
        }
    }
}

impl KeyModel {
    /// The key as the text a person reads: the name itself, or the
    /// identity in decimal.
    pub open spec fn text_spec(self) -> Seq<char> {
        match self {
            KeyModel::Name(s) => s,
            KeyModel::Id(i) => int_text(i as int),
        }
    }
}

impl CustomSpuKey {
    /// The key as text: the name itself, or the identity in decimal.
    pub fn to_text(&self) -> (r: String)
        ensures
            r@ == self@.text_spec(),
    {
        match self {
            CustomSpuKey::Name(s) => s.clone(),
            CustomSpuKey::Id(i) => {
                let mut out = String::new();
                if *i < 0 {
                    push_char(&mut out, '-');
                    let mag: u32 = (-(*i as i64)) as u32;
                    push_dec(mag, &mut out);
                    proof {
                        assert(Seq::<char>::empty().push('-') =~= seq!['-']);
                        assert(seq!['-'] + dec_digits(mag as nat) =~= out@);
                    }
                } else {
                    push_dec(*i as u32, &mut out);
                    proof {
                        assert(Seq::<char>::empty() + dec_digits(*i as nat) =~= out@);
                    }
                }
                out
            },
        }
    }
}

/// Unknown tag rejection: a key whose discriminator string is neither
/// registered variant decodes to an unknown-variant failure, whatever the
/// version and whatever bytes follow the tag. No variant payload is
/// populated: on any error the decoder leaves its target untouched.
pub proof fn lemma_unknown_tag_rejected(tag: Seq<char>, rest: Seq<u8>, version: Version)
    requires
        tag != "Name"@,
        tag != "Id"@,
        str_fits(tag),
    ensures
        CustomSpuKey::parse(str_bytes(tag) + rest, version) == Err::<(KeyModel, int), DecodeFailure>(
            DecodeFailure::BadTag,
        ),
{
    lemma_str_parse_wire(tag, rest);
}

} // verus!
