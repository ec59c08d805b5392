//! Resource-kind metadata model.
//!
//! A resource kind is identified by a stable wire label, addresses its
//! instances by an index-key type, references an owning kind (by kind,
//! never by instance, which keeps instances independently serializable),
//! and pairs each instance with a status type. Capabilities — deletability,
//! creatability, an object-type discriminator — are additive marker
//! traits a kind may mix freely, not a hierarchy.

use vstd::prelude::*;

use crate::codec::WireCodec;
use crate::key::CustomSpuKey;

verus! {

/// Process-wide discriminator of the object kinds the control plane
/// manages; carried by kinds with the [`SpecExt`] capability.
#[derive(Debug, Clone, Copy, PartialEq, Eq, Structural)]
pub enum ObjectType {
    Spu,
    CustomSpu,
    SpuGroup,
    Topic,
    Partition,
}

/// A resource kind. The label is globally unique among registered kinds
/// and never changes across protocol versions; the envelope layer keys
/// its dispatch on it.
pub trait AdminSpec: Sized {
    /// How instances of this kind are addressed in the store.
    type IndexKey;

    /// The kind whose instances own instances of this kind. Resolving an
    /// actual parent is a store lookup by key, never an embedded pointer.
    type Owner;

    /// The observed-state type paired one-to-one with an instance.
    type Status;

    /// The kind's stable wire label.
    spec fn label_spec() -> Seq<char>;

    /// The kind's stable wire label.
    fn label() -> (r: &'static str)
        ensures
            r@ == Self::label_spec(),
    ;
}

/// Marker for observed-state types: mutated independently of the spec and
/// never itself addressable for deletion.
pub trait Status {
}

/// Capability: the kind carries a process-wide unique object-type tag.
pub trait SpecExt: AdminSpec {
    /// The kind's object-type tag.
    spec fn object_type_spec() -> ObjectType;

    /// The kind's object-type tag.
    fn object_type() -> (r: ObjectType)
        ensures
            r == Self::object_type_spec(),
    ;
}

/// Capability: instances of the kind can be deleted; declares how a
/// delete request addresses them and a default key for decode targets.
pub trait Removable: AdminSpec {
    /// The addressing scheme of a delete request against this kind.
    type DeleteKey: WireCodec;

    /// A key to populate a decode target with before any bytes are read.
    fn default_key() -> Self::DeleteKey;
}

/// Capability: the kind supports create-with-default.
pub trait Creatable: AdminSpec {
}

// ---------------------------------------------------------------------
// Conversion boundary with an external declarative store. Only the shape
// of the conversion is defined here — input object, output store object
// or structured error, and the reverse status mapping; the external
// system itself is never invoked by this crate.
// ---------------------------------------------------------------------

/// A resource instance as the external declarative system hands it over:
/// its name, its declared spec, and its observed status.
#[derive(Debug, Clone, PartialEq, Eq)]
pub struct ExternalObject<S: AdminSpec> {
    pub name: S::IndexKey,
    pub spec: S,
    pub status: S::Status,
}

/// A resource instance as the control-plane store holds it, addressed by
/// the kind's index key.
#[derive(Debug, Clone, PartialEq, Eq)]
pub struct StoreObject<S: AdminSpec> {
    pub key: S::IndexKey,
    pub spec: S,
    pub status: S::Status,
}

/// A structured conversion failure: the rejected object comes back with
/// the complaint, so nothing is silently dropped.
#[derive(Debug)]
pub enum ConvertError<E> {
    InvalidObject(E, String),
}

/// Capability: the kind's instances synchronize with an external
/// declarative store through these mappings.
pub trait ExternalSpec: AdminSpec {
    /// The kind's representation on the external side.
    type External;

    /// Maps an incoming external object to a store object, or rejects it
    /// with a structured error.
    fn convert_from_external(obj: ExternalObject<Self>, multi_namespace_context: bool) -> Result<
        StoreObject<Self>,
        ConvertError<ExternalObject<Self>>,
    >;

    /// Maps an externally observed status onto the store's status.
    fn convert_status_from_external(status: Self::Status) -> Self::Status;

    /// The kind's own spec as the external side expects it.
    fn into_external(self) -> Self::External;
}

// ---------------------------------------------------------------------
// The registered kinds. The wire layer reads none of the instance
// fields; they stand for each kind's own schema.
// ---------------------------------------------------------------------

/// A stream processing unit managed by the control plane.
#[derive(Debug, Clone, PartialEq, Eq)]
pub struct SpuSpec {
    pub id: i32,
}

/// Observed state of a stream processing unit.
#[derive(Debug, Clone, PartialEq, Eq)]
pub struct SpuStatus {
    pub online: bool,
}

/// A group of stream processing units provisioned together; owns the
/// units it provisions.
#[derive(Debug, Clone, PartialEq, Eq)]
pub struct SpuGroupSpec {
    pub replicas: u16,
}

/// A stream unit registered by hand rather than provisioned by a group.
/// Not a real spec of its own: it exists to address such units.
#[derive(Debug, Clone, PartialEq, Eq)]
pub struct CustomSpuSpec {
    pub id: i32,
}

/// A named stream of records.
#[derive(Debug, Clone, PartialEq, Eq)]
pub struct TopicSpec {
    pub partitions: i32,
}

/// Observed state of a topic.
#[derive(Debug, Clone, PartialEq, Eq)]
pub struct TopicStatus {
    pub provisioned: bool,
}

impl AdminSpec for SpuSpec {
    type IndexKey = String;

    type Owner = SpuGroupSpec;

    type Status = SpuStatus;

    open spec fn label_spec() -> Seq<char> {
        "SPU"@
    }

    fn label() -> (r: &'static str) {
        "SPU"
    }
}

impl SpecExt for SpuSpec {
    open spec fn object_type_spec() -> ObjectType {
        ObjectType::Spu
    }

    fn object_type() -> (r: ObjectType) {
        ObjectType::Spu
    }
}

impl Status for SpuStatus {
}

/// The stream unit converts by identity: its store spec is its external
/// spec, and an external object carries over field for field.
impl ExternalSpec for SpuSpec {
    type External = SpuSpec;

    fn convert_from_external(obj: ExternalObject<Self>, multi_namespace_context: bool) -> (r:
        Result<StoreObject<Self>, ConvertError<ExternalObject<Self>>>)
        ensures
            r matches Ok(o) && o.key == obj.name && o.spec == obj.spec && o.status == obj.status,
    {
        Ok(StoreObject { key: obj.name, spec: obj.spec, status: obj.status })
    }

    fn convert_status_from_external(status: SpuStatus) -> (r: SpuStatus)
        ensures
            r == status,
    {
        status
    }

    fn into_external(self) -> (r: SpuSpec)
        ensures
            r == self,
    {
        self
    }
}

impl AdminSpec for CustomSpuSpec {
    type IndexKey = String;

    type Owner = SpuSpec;

    type Status = SpuStatus;

    open spec fn label_spec() -> Seq<char> {
        "CustomSpu"@
    }

    fn label() -> (r: &'static str) {
        "CustomSpu"
    }
}

impl SpecExt for CustomSpuSpec {
    open spec fn object_type_spec() -> ObjectType {
        ObjectType::CustomSpu
    }

    fn object_type() -> (r: ObjectType) {
        ObjectType::CustomSpu
    }
}

impl Removable for CustomSpuSpec {
    type DeleteKey = CustomSpuKey;

    fn default_key() -> CustomSpuKey {
        CustomSpuKey::Id(0)
    }
}

impl Creatable for CustomSpuSpec {
}

impl AdminSpec for TopicSpec {
    type IndexKey = String;

    type Owner = TopicSpec;

    type Status = TopicStatus;

    open spec fn label_spec() -> Seq<char> {
        "Topic"@
    }

    fn label() -> (r: &'static str) {
        "Topic"
    }
}

impl SpecExt for TopicSpec {
    open spec fn object_type_spec() -> ObjectType {
        ObjectType::Topic
    }

    fn object_type() -> (r: ObjectType) {
        ObjectType::Topic
    }
}

impl Removable for TopicSpec {
    type DeleteKey = String;

    fn default_key() -> String {
        String::new()
    }
}

impl Creatable for TopicSpec {
}

impl Status for TopicStatus {
}

} // verus!
