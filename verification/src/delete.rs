//! Admin delete request, parameterized by a deletable resource kind.
//!
//! The request holds the kind's delete key and a force flag. The force
//! flag is version-gated: it is present on the wire only from
//! [`FORCE_MIN_VERSION`] on. Below that version it is omitted entirely —
//! absent, not zero-filled — and decoding leaves it at its default.

use vstd::prelude::*;

use crate::codec::Version;
use crate::codec::WireCodec;
use crate::codec::bool_byte;
use crate::codec::bool_parse;
use crate::codec::get_bool;
use crate::codec::put_bool;
use crate::error::DecodeFailure;
use crate::error::WireError;
use crate::metadata::Removable;

verus! {

/// The protocol version from which the force flag is carried on the wire.
pub const FORCE_MIN_VERSION: Version = 13;

/// Mathematical model of a delete request over a key model `KV`.
pub struct DeleteModel<KV> {
    pub key: KV,
    pub force: bool,
}

/// A request to delete one instance of kind `S`, addressed by the kind's
/// delete key, with a version-gated force flag.
#[derive(Debug)]
pub struct DeleteRequest<S: Removable> {
    key: S::DeleteKey,
    force: bool,
}

impl<S: Removable> View for DeleteRequest<S> {
    type V = DeleteModel<<S::DeleteKey as View>::V>;

    closed spec fn view(&self) -> Self::V {
        DeleteModel { key: self.key@, force: self.force }
    }
}

impl<S: Removable> DeleteRequest<S> {
    /// A request without force.
    pub fn new(key: S::DeleteKey) -> (r: Self)
        ensures
            r@.key == key@,
            r@.force == false,
    {
        Self { key, force: false }
    }

    /// A request with the force flag chosen by the caller.
    pub fn with(key: S::DeleteKey, force: bool) -> (r: Self)
        ensures
            r@.key == key@,
            r@.force == force,
    {
        Self { key, force }
    }

    /// Consumes the request and hands out its key.
    pub fn key(self) -> (r: S::DeleteKey)
        ensures
            r@ == self@.key,
    {
        self.key
    }

    /// Whether the deletion is forced.
    pub fn is_force(&self) -> (r: bool)
        ensures
            r == self@.force,
    {
        self.force
    }
}

impl<S: Removable> WireCodec for DeleteRequest<S> {
    /// The key's wire image, then — from [`FORCE_MIN_VERSION`] on — one
    /// boolean byte for the force flag.
    open spec fn wire_of(m: Self::V, version: Version) -> Seq<u8> {
        <S::DeleteKey as WireCodec>::wire_of(m.key, version) + if version >= FORCE_MIN_VERSION {
            seq![bool_byte(m.force)]
        } else {
            Seq::empty()
        }
    }

    open spec fn fits(m: Self::V, version: Version) -> bool {
        <S::DeleteKey as WireCodec>::fits(m.key, version)
    }

    /// Below [`FORCE_MIN_VERSION`] the force flag is gated off and decodes
    /// to its default `false`.
    open spec fn decoded_at(m: Self::V, version: Version) -> Self::V {
        DeleteModel {
            key: <S::DeleteKey as WireCodec>::decoded_at(m.key, version),
            force: if version >= FORCE_MIN_VERSION {
                m.force
            } else {
                false
            },
        }
    }

    open spec fn parse(b: Seq<u8>, version: Version) -> Result<(Self::V, int), DecodeFailure> {
        match <S::DeleteKey as WireCodec>::parse(b, version) {
            Err(f) => Err(f),
            Ok((kv, n)) => if version >= FORCE_MIN_VERSION {
                match bool_parse(b.skip(n)) {
                    Ok((fl, n2)) => Ok((DeleteModel { key: kv, force: fl }, n + n2)),
                    Err(f) => Err(f),
                }
            } else {
                Ok((DeleteModel { key: kv, force: false }, n))
            },
        }
    }

    proof fn lemma_parse_wire(m: Self::V, rest: Seq<u8>, version: Version) {
        let kw = <S::DeleteKey as WireCodec>::wire_of(m.key, version);
        if version >= FORCE_MIN_VERSION {
            let tail = seq![bool_byte(m.force)] + rest;
            assert(Self::wire_of(m, version) + rest =~= kw + tail);
            <S::DeleteKey as WireCodec>::lemma_parse_wire(m.key, tail, version);
            let b = Self::wire_of(m, version) + rest;
            assert(b.skip(kw.len() as int) =~= tail);
            assert(tail[0] == bool_byte(m.force));
        } else {
            assert(Self::wire_of(m, version) + rest =~= kw + rest);
            <S::DeleteKey as WireCodec>::lemma_parse_wire(m.key, rest, version);
        }
    }

    fn write_size(&self, version: Version) -> (n: usize) {
        let k = self.key.write_size(version);
        if version >= FORCE_MIN_VERSION {
            k + 1
        } else {
            k
        }
    }

    fn encode(&self, dest: &mut Vec<u8>, version: Version) -> (r: Result<(), WireError>) {
        match self.key.encode(dest, version) {
            Ok(()) => {},
            Err(e) => {
                return Err(e);
            },
        }
        if version >= FORCE_MIN_VERSION {
            put_bool(dest, self.force);
        }
        proof {
            assert(dest@ =~= old(dest)@ + Self::wire_of(self@, version));
        }
        Ok(())
    }

    fn decode(&mut self, src: &Vec<u8>, pos: &mut usize, version: Version) -> (r: Result<
        (),
        WireError,
    >) {
        let ghost rest = src@.skip(*old(pos) as int);
        match self.key.decode(src, pos, version) {
            Ok(()) => {},
            Err(e) => {
                return Err(e);
            },
        }
        let ghost n1 = match <S::DeleteKey as WireCodec>::parse(rest, version) {
            Ok((_, n)) => n,
            Err(_) => 0int,
        };
        if version >= FORCE_MIN_VERSION {
            proof {
                assert(src@.skip(*pos as int) =~= rest.skip(n1));
            }
            let fl = match get_bool(src, pos) {
                Ok(fl) => fl,
                Err(e) => {
                    return Err(e);
                },
            };
            self.force = fl;
            Ok(())
        } else {
            self.force = false;
            Ok(())
        }
    }
}

// ---------------------------------------------------------------------
// Laws of the delete request's wire behaviour.
// ---------------------------------------------------------------------

/// Round trip: for every deletable kind and protocol version, decoding an
/// encoded delete request at the version it was encoded at reproduces it
/// exactly, whatever bytes follow the image — provided the request is
/// representable at that version (its model decodes to itself, which the
/// force flag satisfies from [`FORCE_MIN_VERSION`] on).
pub proof fn lemma_delete_round_trip<S: Removable>(
    m: DeleteModel<<S::DeleteKey as View>::V>,
    rest: Seq<u8>,
    version: Version,
)
    requires
        DeleteRequest::<S>::fits(m, version),
        DeleteRequest::<S>::decoded_at(m, version) == m,
    ensures
        DeleteRequest::<S>::parse(DeleteRequest::<S>::wire_of(m, version) + rest, version) == Ok::<
            (DeleteModel<<S::DeleteKey as View>::V>, int),
            DecodeFailure,
        >((m, DeleteRequest::<S>::wire_of(m, version).len() as int)),
{
    DeleteRequest::<S>::lemma_parse_wire(m, rest, version);
}

/// Version monotonicity: a request encoded at version `hi`, decoded at any
/// `lo` at most `hi` that predates the force flag, yields the key exactly,
/// the force flag at its default `false`, and no decode error — provided
/// the key's own wire image does not differ between the two versions.
pub proof fn lemma_delete_version_monotonic<S: Removable>(
    m: DeleteModel<<S::DeleteKey as View>::V>,
    rest: Seq<u8>,
    hi: Version,
    lo: Version,
)
    requires
        lo <= hi,
        lo < FORCE_MIN_VERSION,
        <S::DeleteKey as WireCodec>::fits(m.key, lo),
        <S::DeleteKey as WireCodec>::wire_of(m.key, hi) == <S::DeleteKey as WireCodec>::wire_of(
            m.key,
            lo,
        ),
        <S::DeleteKey as WireCodec>::decoded_at(m.key, lo) == m.key,
    ensures
        DeleteRequest::<S>::parse(DeleteRequest::<S>::wire_of(m, hi) + rest, lo) == Ok::<
            (DeleteModel<<S::DeleteKey as View>::V>, int),
            DecodeFailure,
        >(
            (
                DeleteModel { key: m.key, force: false },
                <S::DeleteKey as WireCodec>::wire_of(m.key, lo).len() as int,
            ),
        ),
{
    let kw = <S::DeleteKey as WireCodec>::wire_of(m.key, lo);
    if hi >= FORCE_MIN_VERSION {
        let tail = seq![bool_byte(m.force)] + rest;
        assert(DeleteRequest::<S>::wire_of(m, hi) + rest =~= kw + tail);
        <S::DeleteKey as WireCodec>::lemma_parse_wire(m.key, tail, lo);
    } else {
        assert(DeleteRequest::<S>::wire_of(m, hi) + rest =~= kw + rest);
        <S::DeleteKey as WireCodec>::lemma_parse_wire(m.key, rest, lo);
    }
}

/// The converse of monotonicity: bytes written below the force version do
/// not satisfy a decoder that assumes it. The force byte is absent, so the
/// decode runs short of bytes rather than misreading anything — provided,
/// as before, the key's wire image does not differ between the versions.
pub proof fn lemma_delete_version_underflow<S: Removable>(
    m: DeleteModel<<S::DeleteKey as View>::V>,
    hi: Version,
    lo: Version,
)
    requires
        lo < FORCE_MIN_VERSION <= hi,
        <S::DeleteKey as WireCodec>::fits(m.key, hi),
        <S::DeleteKey as WireCodec>::wire_of(m.key, hi) == <S::DeleteKey as WireCodec>::wire_of(
            m.key,
            lo,
        ),
    ensures
        DeleteRequest::<S>::parse(DeleteRequest::<S>::wire_of(m, lo), hi) == Err::<
            (DeleteModel<<S::DeleteKey as View>::V>, int),
            DecodeFailure,
        >(DecodeFailure::Short),
{
    let kw = <S::DeleteKey as WireCodec>::wire_of(m.key, hi);
    assert(DeleteRequest::<S>::wire_of(m, lo) =~= kw + Seq::<u8>::empty());
    <S::DeleteKey as WireCodec>::lemma_parse_wire(m.key, Seq::empty(), hi);
    assert((kw + Seq::<u8>::empty()).skip(kw.len() as int) =~= Seq::<u8>::empty());
}

/// Version monotonicity for the custom stream unit kind, with nothing
/// assumed of the key: its wire image never depends on the version.
pub proof fn lemma_custom_spu_delete_monotonic(
    m: DeleteModel<crate::key::KeyModel>,
    rest: Seq<u8>,
    hi: Version,
    lo: Version,
)
    requires
        lo <= hi,
        lo < FORCE_MIN_VERSION,
        <crate::key::CustomSpuKey as WireCodec>::fits(m.key, hi),
    ensures
        DeleteRequest::<crate::metadata::CustomSpuSpec>::parse(
            DeleteRequest::<crate::metadata::CustomSpuSpec>::wire_of(m, hi) + rest,
            lo,
        ) == Ok::<(DeleteModel<crate::key::KeyModel>, int), DecodeFailure>(
            (
                DeleteModel { key: m.key, force: false },
                <crate::key::CustomSpuKey as WireCodec>::wire_of(m.key, lo).len() as int,
            ),
        ),
{
    lemma_delete_version_monotonic::<crate::metadata::CustomSpuSpec>(m, rest, hi, lo);
}

} // verus!
