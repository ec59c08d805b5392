//! Type envelope: a tagged, opaque byte container.
//!
//! One wire value carries a payload whose concrete shape depends on a
//! resource kind selected at call time, without the transport layer
//! enumerating all kinds. `wrap` serializes a kind's discriminator label
//! alongside the encoded value; `try_as` compares the embedded label to a
//! candidate kind and either disclaims the envelope ("not this kind", a
//! non-error) or commits to decoding the payload, where failure is a true
//! error. Dispatch tries the registered kinds in a fixed, documented
//! order.

use vstd::prelude::*;
use vstd::string::StrSliceExecFns;
use vstd::string::StringExecFns;

use crate::codec::MAX_STR_CHARS;
use crate::codec::Version;
use crate::codec::WireCodec;
use crate::codec::be16;
use crate::codec::comb16;
use crate::codec::get_u16;
use crate::codec::lemma_be16_comb;
use crate::codec::put_i16;
use crate::codec::put_u16;
use crate::codec::bytes_fits;
use crate::codec::bytes_parse;
use crate::codec::bytes_wire;
use crate::codec::get_bytes;
use crate::codec::get_str;
use crate::codec::lemma_bytes_parse_wire;
use crate::codec::lemma_chars_wire_len;
use crate::codec::lemma_str_parse_wire;
use crate::codec::put_bytes;
use crate::codec::put_str;
use crate::codec::str_bytes;
use crate::codec::str_fits;
use crate::codec::str_parse;
use crate::delete::DeleteModel;
use crate::delete::DeleteRequest;
use crate::delete::lemma_delete_round_trip;
use crate::error::DecodeFailure;
use crate::error::WireError;
use crate::metadata::AdminSpec;
use crate::metadata::CustomSpuSpec;
use crate::metadata::Removable;
use crate::metadata::TopicSpec;

verus! {

/// Mathematical model of a type envelope: the embedded kind label and the
/// opaque payload bytes.
pub struct BufferModel {
    pub tag: Seq<char>,
    pub payload: Seq<u8>,
}

/// A tagged, opaque byte container, opaque until downcast against a
/// specific kind.
#[derive(Debug, Clone, PartialEq, Eq)]
pub struct TypeBuffer {
    tag: String,
    payload: Vec<u8>,
}

impl View for TypeBuffer {
    type V = BufferModel;

    closed spec fn view(&self) -> BufferModel {
        BufferModel { tag: self.tag@, payload: self.payload@ }
    }
}

/// The default envelope is empty: a decode target before any bytes are
/// read.
impl Default for TypeBuffer {
    fn default() -> (r: Self)
        ensures
            r@.tag == Seq::<char>::empty(),
            r@.payload == Seq::<u8>::empty(),
    {
        TypeBuffer { tag: String::new(), payload: Vec::new() }
    }
}

/// What trying an envelope against a candidate kind yields: "not this
/// kind" when the labels differ, otherwise the decoded delete request of
/// that kind, or the payload's decode failure.
pub open spec fn try_as_spec<S: Removable>(m: BufferModel, version: Version) -> Result<
    Option<DeleteModel<<S::DeleteKey as View>::V>>,
    DecodeFailure,
> {
    if m.tag != S::label_spec() {
        Ok(None)
    } else {
        match DeleteRequest::<S>::parse(m.payload, version) {
            Ok((dm, n)) => Ok(Some(dm)),
            Err(f) => Err(f),
        }
    }
}

impl TypeBuffer {
    /// Serializes `value` into an envelope tagged with kind `S`'s label.
    /// Fails only if the inner encode fails.
    pub fn wrap<S: AdminSpec, T: WireCodec>(value: &T, version: Version) -> (r: Result<
        TypeBuffer,
        WireError,
    >)
        ensures
            r is Ok <==> T::fits(value@, version),
            r matches Ok(tb) ==> tb@.tag == S::label_spec() && tb@.payload == T::wire_of(
                value@,
                version,
            ),
    {
        let mut payload: Vec<u8> = Vec::new();
        match value.encode(&mut payload, version) {
            Ok(()) => {},
            Err(e) => {
                return Err(e);
            },
        }
        Ok(TypeBuffer { tag: String::from_str(S::label()), payload })
    }

    /// Compares the embedded label to the candidate kind `S`. Mismatch is
    /// "not this kind" — `Ok(None)`, no error, the caller proceeds to the
    /// next candidate. On a match the payload is decoded as `S`'s delete
    /// request; a decode failure here is a true error.
    pub fn try_as<S: Removable>(&self, version: Version) -> (r: Result<
        Option<DeleteRequest<S>>,
        WireError,
    >)
        ensures
            ({
                match try_as_spec::<S>(self@, version) {
                    Ok(None) => r == Ok::<Option<DeleteRequest<S>>, WireError>(None),
                    Ok(Some(dm)) => r matches Ok(Some(req)) && req@ == dm,
                    Err(f) => r is Err && (f == DecodeFailure::Short <==> r == Err::<
                        Option<DeleteRequest<S>>,
                        WireError,
                    >(WireError::BufferUnderflow)),
                }
            }),
    {
        let label = String::from_str(S::label());
        if !(self.tag == label) {
            return Ok(None);
        }
        let mut req: DeleteRequest<S> = DeleteRequest::new(S::default_key());
        let mut pos: usize = 0;
        let res = req.decode(&self.payload, &mut pos, version);
        proof {
            assert(self@.payload.skip(0) =~= self@.payload);
        }
        match res {
            Ok(()) => Ok(Some(req)),
            Err(e) => Err(e),
        }
    }

    /// The embedded kind label.
    pub fn tag(&self) -> (r: &str)
        ensures
            r@ == self@.tag,
    {
        self.tag.as_str()
    }
}

/// Envelopes themselves go on the wire as a length-prefixed label, then
/// the length-prefixed payload bytes; nothing in an envelope is
/// version-gated.
impl WireCodec for TypeBuffer {
    open spec fn wire_of(m: BufferModel, version: Version) -> Seq<u8> {
        str_bytes(m.tag) + bytes_wire(m.payload)
    }

    open spec fn fits(m: BufferModel, version: Version) -> bool {
        str_fits(m.tag) && bytes_fits(m.payload)
    }

    open spec fn decoded_at(m: BufferModel, version: Version) -> BufferModel {
        m
    }

    open spec fn parse(b: Seq<u8>, version: Version) -> Result<(BufferModel, int), DecodeFailure> {
        match str_parse(b) {
            Err(f) => Err(f),
            Ok((tag, n)) => match bytes_parse(b.skip(n)) {
                Err(f) => Err(f),
                Ok((payload, n2)) => Ok((BufferModel { tag, payload }, n + n2)),
            },
        }
    }

    #[verifier::rlimit(100)]
    proof fn lemma_parse_wire(m: BufferModel, rest: Seq<u8>, version: Version) {
        let tag = m.tag;
        let payload = m.payload;
        let w = Self::wire_of(m, version);
        let b = w + rest;
        let tail = bytes_wire(payload) + rest;
        let n = 2 + 4 * tag.len() as int;
        assert(w.len() == n + 4 + payload.len()) by {
            lemma_chars_wire_len(tag);
        }
        assert(b =~= str_bytes(tag) + tail);
        assert(str_parse(b) == Ok::<(Seq<char>, int), DecodeFailure>((tag, n))) by {
            lemma_str_parse_wire(tag, tail);
        }
        assert(b.skip(n) =~= tail) by {
            lemma_chars_wire_len(tag);
        }
        assert(bytes_parse(b.skip(n)) == Ok::<(Seq<u8>, int), DecodeFailure>(
            (payload, 4 + payload.len() as int),
        )) by {
            lemma_bytes_parse_wire(payload, rest);
        }
        assert(Self::parse(b, version) == Ok::<(BufferModel, int), DecodeFailure>(
            (m, w.len() as int),
        ));
    }

    fn write_size(&self, version: Version) -> (n: usize) {
        proof {
            lemma_chars_wire_len(self@.tag);
        }
        (2 + 4 * self.tag.as_str().unicode_len()) + (4 + self.payload.len())
    }

    fn encode(&self, dest: &mut Vec<u8>, version: Version) -> (r: Result<(), WireError>) {
        if self.tag.as_str().unicode_len() > MAX_STR_CHARS {
            return Err(WireError::TooLong { field: String::from_str("tag") });
        }
        if self.payload.len() > 0xFFFF_FFFFusize {
            return Err(WireError::TooLong { field: String::from_str("payload") });
        }
        match put_str(dest, self.tag.as_str()) {
            Ok(()) => {},
            Err(e) => {
                return Err(e);
            },
        }
        match put_bytes(dest, &self.payload) {
            Ok(()) => {},
            Err(e) => {
                return Err(e);
            },
        }
        proof {
            assert(dest@ =~= old(dest)@ + Self::wire_of(self@, version));
        }
        Ok(())
    }

    fn decode(&mut self, src: &Vec<u8>, pos: &mut usize, version: Version) -> (r: Result<
        (),
        WireError,
    >) {
        let ghost rest = src@.skip(*old(pos) as int);
        let tag = match get_str(src, pos) {
            Ok(t) => t,
            Err(e) => {
                return Err(e);
            },
        };
        let ghost n1 = match str_parse(rest) {
            Ok((_, n)) => n,
            Err(_) => 0int,
        };
        proof {
            assert(src@.skip(*pos as int) =~= rest.skip(n1));
        }
        let payload = match get_bytes(src, pos) {
            Ok(p) => p,
            Err(e) => {
                return Err(e);
            },
        };
        *self = TypeBuffer { tag, payload };
        Ok(())
    }
}

// ---------------------------------------------------------------------
// The kind-erased delete request and its API descriptor.
// ---------------------------------------------------------------------

/// Response shape of an admin mutation: the addressed name and the
/// outcome the control plane reports for it.
#[derive(Debug, Clone, PartialEq, Eq)]
pub struct Status {
    pub name: String,
    pub error_code: i16,
    pub error_message: Option<String>,
}

/// Integer identities of the admin public API request shapes, consulted
/// by the transport for routing.
#[derive(Debug, Clone, Copy, PartialEq, Eq, Structural)]
pub enum AdminPublicApiKey {
    Create,
    Delete,
    List,
    Watch,
}

impl AdminPublicApiKey {
    /// The wire value of the API identity.
    pub open spec fn value_spec(self) -> u16 {
        match self {
            AdminPublicApiKey::Create => 1001,
            AdminPublicApiKey::Delete => 1002,
            AdminPublicApiKey::List => 1003,
            AdminPublicApiKey::Watch => 1004,
        }
    }

    /// The wire value of the API identity.
    pub fn value(self) -> (r: u16)
        ensures
            r == self.value_spec(),
    {
        match self {
            AdminPublicApiKey::Create => 1001,
            AdminPublicApiKey::Delete => 1002,
            AdminPublicApiKey::List => 1003,
            AdminPublicApiKey::Watch => 1004,
        }
    }
}

/// The protocol version admin requests negotiate by default.
pub const COMMON_VERSION: Version = 13;

/// Per request shape: the API identity, the supported version window, and
/// the declared response shape, letting a transport route and negotiate
/// versions without inspecting kind-specific payloads.
pub trait Request {
    /// The response shape the transport decodes for this request.
    type Response;

    /// The request's API identity.
    spec fn api_key_spec() -> u16;

    /// The request's API identity.
    fn api_key() -> (r: u16)
        ensures
            r == Self::api_key_spec(),
    ;

    /// The lowest protocol version peers may negotiate for this request.
    spec fn min_api_version_spec() -> Version;

    /// The lowest protocol version peers may negotiate for this request.
    fn min_api_version() -> (r: Version)
        ensures
            r == Self::min_api_version_spec(),
    ;

    /// The version used when the peer states no preference.
    spec fn default_api_version_spec() -> Version;

    /// The version used when the peer states no preference.
    fn default_api_version() -> (r: Version)
        ensures
            r == Self::default_api_version_spec(),
    ;
}

/// The kind-erased delete request: the only delete value that crosses the
/// transport boundary. It carries a delete request of some kind inside a
/// type envelope tagged with that kind's label.
#[derive(Debug, Clone, PartialEq, Eq)]
pub struct ObjectApiDeleteRequest(TypeBuffer);

impl View for ObjectApiDeleteRequest {
    type V = BufferModel;

    closed spec fn view(&self) -> BufferModel {
        self.0@
    }
}

impl ObjectApiDeleteRequest {
    /// Takes an already-built envelope as a kind-erased request, as a
    /// transport does after decoding a frame.
    pub fn from_buffer(buffer: TypeBuffer) -> (r: Self)
        ensures
            r@ == buffer@,
    {
        ObjectApiDeleteRequest(buffer)
    }

    /// Erases a typed delete request into an envelope tagged with its
    /// kind's label. Fails only if the inner encode fails.
    pub fn try_encode_from<S: Removable>(input: DeleteRequest<S>, version: Version) -> (r: Result<
        Self,
        WireError,
    >)
        ensures
            r is Ok <==> DeleteRequest::<S>::fits(input@, version),
            r matches Ok(o) ==> o@.tag == S::label_spec() && o@.payload
                == DeleteRequest::<S>::wire_of(input@, version),
    {
        match TypeBuffer::wrap::<S, DeleteRequest<S>>(&input, version) {
            Ok(tb) => Ok(ObjectApiDeleteRequest(tb)),
            Err(e) => Err(e),
        }
    }

    /// Tries the envelope against the candidate kind `S`; see
    /// [`TypeBuffer::try_as`].
    pub fn downcast<S: Removable>(&self, version: Version) -> (r: Result<
        Option<DeleteRequest<S>>,
        WireError,
    >)
        ensures
            ({
                match try_as_spec::<S>(self@, version) {
                    Ok(None) => r == Ok::<Option<DeleteRequest<S>>, WireError>(None),
                    Ok(Some(dm)) => r matches Ok(Some(req)) && req@ == dm,
                    Err(f) => r is Err && (f == DecodeFailure::Short <==> r == Err::<
                        Option<DeleteRequest<S>>,
                        WireError,
                    >(WireError::BufferUnderflow)),
                }
            }),
    {
        self.0.try_as::<S>(version)
    }
}

impl Request for ObjectApiDeleteRequest {
    type Response = Status;

    open spec fn api_key_spec() -> u16 {
        AdminPublicApiKey::Delete.value_spec()
    }

    fn api_key() -> (r: u16) {
        AdminPublicApiKey::Delete.value()
    }

    open spec fn min_api_version_spec() -> Version {
        1
    }

    fn min_api_version() -> (r: Version) {
        1
    }

    open spec fn default_api_version_spec() -> Version {
        COMMON_VERSION
    }

    fn default_api_version() -> (r: Version) {
        COMMON_VERSION
    }
}

// ---------------------------------------------------------------------
// Dispatch: the closed, ordered registry of deletable kinds.
// ---------------------------------------------------------------------

/// A delete request resolved to one of the registered kinds.
#[derive(Debug)]
pub enum ObjectDelete {
    CustomSpu(DeleteRequest<CustomSpuSpec>),
    Topic(DeleteRequest<TopicSpec>),
}

/// Resolves an incoming envelope against the registered deletable kinds,
/// tried in the fixed order: custom stream unit, then topic. The first
/// candidate that does not disclaim the tag decides the outcome — its
/// decoded request, or its decode error. When every candidate disclaims
/// the tag, the envelope names an unknown resource kind.
pub fn resolve_delete(req: &ObjectApiDeleteRequest, version: Version) -> (r: Result<
    ObjectDelete,
    WireError,
>)
    ensures
        req@.tag == CustomSpuSpec::label_spec() ==> ({
            match DeleteRequest::<CustomSpuSpec>::parse(req@.payload, version) {
                Ok((dm, n)) => r matches Ok(ObjectDelete::CustomSpu(d)) && d@ == dm,
                Err(f) => r is Err && (f == DecodeFailure::Short <==> r == Err::<
                    ObjectDelete,
                    WireError,
                >(WireError::BufferUnderflow)),
            }
        }),
        req@.tag == TopicSpec::label_spec() ==> ({
            match DeleteRequest::<TopicSpec>::parse(req@.payload, version) {
                Ok((dm, n)) => r matches Ok(ObjectDelete::Topic(d)) && d@ == dm,
                Err(f) => r is Err && (f == DecodeFailure::Short <==> r == Err::<
                    ObjectDelete,
                    WireError,
                >(WireError::BufferUnderflow)),
            }
        }),
        req@.tag != CustomSpuSpec::label_spec() && req@.tag != TopicSpec::label_spec() ==> (
        r matches Err(WireError::UnknownResourceKind { tag }) && tag@ == req@.tag),
{
    proof {
        reveal_strlit("CustomSpu");
        reveal_strlit("Topic");
        assert("CustomSpu"@.len() == 9);
        assert("Topic"@.len() == 5);
        assert(CustomSpuSpec::label_spec() != TopicSpec::label_spec());
    }
    match req.downcast::<CustomSpuSpec>(version) {
        Ok(Some(d)) => {
            return Ok(ObjectDelete::CustomSpu(d));
        },
        Ok(None) => {},
        Err(e) => {
            return Err(e);
        },
    }
    match req.downcast::<TopicSpec>(version) {
        Ok(Some(d)) => {
            return Ok(ObjectDelete::Topic(d));
        },
        Ok(None) => {},
        Err(e) => {
            return Err(e);
        },
    }
    Err(WireError::UnknownResourceKind { tag: String::from_str(req.0.tag.as_str()) })
}

// ---------------------------------------------------------------------
// The request frame: what actually crosses the transport. The API
// identity and the negotiated version precede the envelope, so a
// transport can route and negotiate without inspecting kind-specific
// payloads.
// ---------------------------------------------------------------------

/// Wire image of one delete request frame: API identity, request version,
/// then the envelope.
pub open spec fn frame_wire(m: BufferModel, version: Version) -> Seq<u8> {
    be16(ObjectApiDeleteRequest::api_key_spec()) + be16(version as u16) + TypeBuffer::wire_of(
        m,
        version,
    )
}

/// Specification-level decode of a delete request frame.
pub open spec fn frame_parse(b: Seq<u8>) -> Result<((u16, Version, BufferModel), int), DecodeFailure> {
    if b.len() < 4 {
        Err(DecodeFailure::Short)
    } else {
        let api = comb16(b[0], b[1]);
        let ver = comb16(b[2], b[3]) as i16;
        if api != ObjectApiDeleteRequest::api_key_spec() {
            Err(DecodeFailure::BadTag)
        } else {
            match TypeBuffer::parse(b.skip(4), ver) {
                Ok((m, n)) => Ok(((api, ver, m), 4 + n)),
                Err(f) => Err(f),
            }
        }
    }
}

/// Appends one full frame; on failure the buffer is untouched.
pub fn encode_frame(req: &ObjectApiDeleteRequest, version: Version, dest: &mut Vec<u8>) -> (r:
    Result<(), WireError>)
    ensures
        r is Ok <==> TypeBuffer::fits(req@, version),
        r is Ok ==> final(dest)@ == old(dest)@ + frame_wire(req@, version),
        r is Err ==> final(dest)@ == old(dest)@,
{
    if req.0.tag.as_str().unicode_len() > MAX_STR_CHARS {
        return Err(WireError::TooLong { field: String::from_str("tag") });
    }
    if req.0.payload.len() > 0xFFFF_FFFFusize {
        return Err(WireError::TooLong { field: String::from_str("payload") });
    }
    put_u16(dest, ObjectApiDeleteRequest::api_key());
    put_i16(dest, version);
    let r = req.0.encode(dest, version);
    proof {
        assert(r is Ok);
        assert(dest@ =~= old(dest)@ + frame_wire(req@, version));
    }
    Ok(())
}

/// Reads one full frame at the cursor: the negotiated version and the
/// kind-erased request. A frame whose API identity is not the delete
/// request's is invalid data, not a kind mismatch.
pub fn decode_frame(src: &Vec<u8>, pos: &mut usize) -> (r: Result<
    (Version, ObjectApiDeleteRequest),
    WireError,
>)
    requires
        *old(pos) <= src@.len(),
    ensures
        *old(pos) <= *final(pos) <= src@.len(),
        ({
            let rest = src@.skip(*old(pos) as int);
            match frame_parse(rest) {
                Ok(((api, ver, m), n)) => (r matches Ok((v, o)) && v == ver && o@ == m)
                    && *final(pos) == *old(pos) + n,
                Err(f) => r is Err && (f == DecodeFailure::Short <==> r == Err::<
                    (Version, ObjectApiDeleteRequest),
                    WireError,
                >(WireError::BufferUnderflow)),
            }
        }),
{
    let ghost rest = src@.skip(*old(pos) as int);
    let api = match get_u16(src, pos) {
        Ok(v) => v,
        Err(e) => {
            return Err(e);
        },
    };
    let ver16 = match get_u16(src, pos) {
        Ok(v) => v,
        Err(e) => {
            return Err(e);
        },
    };
    proof {
        assert(rest[0] == src@[*old(pos) as int] && rest[1] == src@[*old(pos) + 1] && rest[2]
            == src@[*old(pos) + 2] && rest[3] == src@[*old(pos) + 3]);
    }
    let ver = ver16 as i16;
    if api != 1002 {
        return Err(WireError::InvalidData { field: String::from_str("api_key") });
    }
    let mut buffer = TypeBuffer::default();
    let ghost mid = *pos as int;
    proof {
        assert(src@.skip(mid) =~= rest.skip(4));
    }
    match buffer.decode(src, pos, ver) {
        Ok(()) => Ok((ver, ObjectApiDeleteRequest(buffer))),
        Err(e) => Err(e),
    }
}

/// Round trip of the frame: the version travels with the envelope and
/// comes back as written, with the envelope's model intact.
pub proof fn lemma_frame_round_trip(m: BufferModel, rest: Seq<u8>, version: Version)
    requires
        TypeBuffer::fits(m, version),
    ensures
        frame_parse(frame_wire(m, version) + rest) == Ok::<
            ((u16, Version, BufferModel), int),
            DecodeFailure,
        >(
            (
                (ObjectApiDeleteRequest::api_key_spec(), version, m),
                4 + TypeBuffer::wire_of(m, version).len() as int,
            ),
        ),
{
    let b = frame_wire(m, version) + rest;
    let api = ObjectApiDeleteRequest::api_key_spec();
    assert(b[0] == be16(api)[0] && b[1] == be16(api)[1] && b[2] == be16(version as u16)[0] && b[3]
        == be16(version as u16)[1]);
    lemma_be16_comb(api);
    lemma_be16_comb(version as u16);
    assert((version as u16) as i16 == version) by (bit_vector);
    assert(b.skip(4) =~= TypeBuffer::wire_of(m, version) + rest);
    TypeBuffer::lemma_parse_wire(m, rest, version);
}

// ---------------------------------------------------------------------
// Laws of the envelope.
// ---------------------------------------------------------------------

/// Tag fidelity, first half: trying an envelope against any kind whose
/// label differs from the embedded tag is "not this kind" — never an
/// error, never a value.
pub proof fn lemma_tag_fidelity<S: Removable>(m: BufferModel, version: Version)
    requires
        m.tag != S::label_spec(),
    ensures
        try_as_spec::<S>(m, version) == Ok::<
            Option<DeleteModel<<S::DeleteKey as View>::V>>,
            DecodeFailure,
        >(None),
{
}

/// Tag fidelity, second half, with the envelope round trip: an envelope
/// wrapped from a delete request of kind `S`, tried against `S` at the
/// version it was wrapped at, yields the original request back — provided
/// the request is representable at that version.
pub proof fn lemma_envelope_round_trip<S: Removable>(
    dm: DeleteModel<<S::DeleteKey as View>::V>,
    version: Version,
)
    requires
        DeleteRequest::<S>::fits(dm, version),
        DeleteRequest::<S>::decoded_at(dm, version) == dm,
    ensures
        try_as_spec::<S>(
            BufferModel {
                tag: S::label_spec(),
                payload: DeleteRequest::<S>::wire_of(dm, version),
            },
            version,
        ) == Ok::<Option<DeleteModel<<S::DeleteKey as View>::V>>, DecodeFailure>(Some(dm)),
{
    let w = DeleteRequest::<S>::wire_of(dm, version);
    lemma_delete_round_trip::<S>(dm, Seq::empty(), version);
    assert(w + Seq::<u8>::empty() =~= w);
}

} // verus!
