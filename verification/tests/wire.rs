//! Scenario tests of the wire layer: the tagged-union key, the
//! version-gated delete request, and the type envelope.

use fluvio_wire::codec::WireCodec;
use fluvio_wire::delete::DeleteRequest;
use fluvio_wire::envelope::ObjectApiDeleteRequest;
use fluvio_wire::envelope::ObjectDelete;
use fluvio_wire::envelope::Request;
use fluvio_wire::envelope::TypeBuffer;
use fluvio_wire::envelope::decode_frame;
use fluvio_wire::envelope::encode_frame;
use fluvio_wire::envelope::resolve_delete;
use fluvio_wire::error::WireError;
use fluvio_wire::key::CustomSpuKey;
use fluvio_wire::metadata::AdminSpec;
use fluvio_wire::metadata::CustomSpuSpec;
use fluvio_wire::metadata::ExternalObject;
use fluvio_wire::metadata::ExternalSpec;
use fluvio_wire::metadata::ObjectType;
use fluvio_wire::metadata::Removable;
use fluvio_wire::metadata::SpecExt;
use fluvio_wire::metadata::SpuSpec;
use fluvio_wire::metadata::SpuStatus;
use fluvio_wire::metadata::TopicSpec;

fn decode_key(bytes: &Vec<u8>, version: i16) -> Result<CustomSpuKey, WireError> {
    let mut key = CustomSpuKey::default();
    let mut pos: usize = 0;
    key.decode(bytes, &mut pos, version)?;
    Ok(key)
}

#[test]
fn name_delete_round_trips_at_force_version() {
    let req: DeleteRequest<CustomSpuSpec> =
        DeleteRequest::new(CustomSpuKey::Name(String::from("topic-a")));
    let mut bytes: Vec<u8> = Vec::new();
    req.encode(&mut bytes, 13).expect("encode");
    assert_eq!(bytes.len(), req.write_size(13));

    let mut back: DeleteRequest<CustomSpuSpec> =
        DeleteRequest::new(CustomSpuSpec::default_key());
    let mut pos: usize = 0;
    back.decode(&bytes, &mut pos, 13).expect("decode");
    assert_eq!(pos, bytes.len());
    assert!(!back.is_force());
    assert_eq!(back.key(), CustomSpuKey::Name(String::from("topic-a")));
}

#[test]
fn old_version_omits_force_byte() {
    let req: DeleteRequest<CustomSpuSpec> =
        DeleteRequest::new(CustomSpuKey::Name(String::from("topic-a")));
    let mut at10: Vec<u8> = Vec::new();
    req.encode(&mut at10, 10).expect("encode");
    let mut at13: Vec<u8> = Vec::new();
    req.encode(&mut at13, 13).expect("encode");
    assert_eq!(at13.len(), at10.len() + 1);

    // the version-10 bytes decode under version-10 rules: force defaults
    let mut back: DeleteRequest<CustomSpuSpec> =
        DeleteRequest::new(CustomSpuSpec::default_key());
    let mut pos: usize = 0;
    back.decode(&at10, &mut pos, 10).expect("decode");
    assert!(!back.is_force());
    assert_eq!(back.key(), CustomSpuKey::Name(String::from("topic-a")));

    // the same bytes under version-13 rules run out before the force byte
    let mut target: DeleteRequest<CustomSpuSpec> =
        DeleteRequest::new(CustomSpuSpec::default_key());
    let mut pos13: usize = 0;
    let err = target.decode(&at10, &mut pos13, 13).unwrap_err();
    assert_eq!(err, WireError::BufferUnderflow);
}

#[test]
fn newer_encoding_still_reads_at_old_version() {
    // encoded at 13, decoded at 10: the key comes back, force at default
    let req: DeleteRequest<CustomSpuSpec> =
        DeleteRequest::with(CustomSpuKey::Id(7), true);
    let mut bytes: Vec<u8> = Vec::new();
    req.encode(&mut bytes, 13).expect("encode");

    let mut back: DeleteRequest<CustomSpuSpec> =
        DeleteRequest::new(CustomSpuSpec::default_key());
    let mut pos: usize = 0;
    back.decode(&bytes, &mut pos, 10).expect("decode");
    assert_eq!(pos, bytes.len() - 1);
    assert!(!back.is_force());
    assert_eq!(back.key(), CustomSpuKey::Id(7));
}

#[test]
fn topic_envelope_disclaims_spu_kind() {
    let req: DeleteRequest<TopicSpec> =
        DeleteRequest::with(String::from("topic-a"), true);
    let erased = ObjectApiDeleteRequest::try_encode_from::<TopicSpec>(req, 13).expect("wrap");

    let miss = erased.downcast::<CustomSpuSpec>(13).expect("not an error");
    assert!(miss.is_none());

    let hit = erased.downcast::<TopicSpec>(13).expect("decode").expect("this kind");
    assert!(hit.is_force());
    assert_eq!(hit.key(), String::from("topic-a"));
}

#[test]
fn id_key_wire_image_is_exact() {
    let key = CustomSpuKey::Id(42);
    assert_eq!(key.type_string(), "Id");
    for version in [0i16, 7, 13] {
        let mut bytes: Vec<u8> = Vec::new();
        key.encode(&mut bytes, version).expect("encode");
        // type string "Id": 8 payload bytes, then 'I' and 'd' as scalars;
        // then the 4-byte signed integer 42
        assert_eq!(
            bytes,
            vec![0, 8, 0, 0, 0, 0x49, 0, 0, 0, 0x64, 0, 0, 0, 42]
        );
        assert_eq!(bytes.len(), key.write_size(version));
        assert_eq!(decode_key(&bytes, version).expect("decode"), CustomSpuKey::Id(42));
    }
}

#[test]
fn negative_id_round_trips() {
    let key = CustomSpuKey::Id(-123456);
    let mut bytes: Vec<u8> = Vec::new();
    key.encode(&mut bytes, 13).expect("encode");
    assert_eq!(decode_key(&bytes, 13).expect("decode"), CustomSpuKey::Id(-123456));
}

#[test]
fn unknown_tag_is_rejected_without_populating() {
    let mut bytes: Vec<u8> = Vec::new();
    fluvio_wire::codec::put_str(&mut bytes, "Bogus").expect("tag");
    bytes.extend_from_slice(&[0, 0, 0, 42]);

    let mut target = CustomSpuKey::Id(7);
    let mut pos: usize = 0;
    let err = target.decode(&bytes, &mut pos, 13).unwrap_err();
    match err {
        WireError::UnknownVariant { tag, union_name } => {
            assert_eq!(tag, "Bogus");
            assert_eq!(union_name, "CustomSpuKey");
        }
        other => panic!("wrong error: {:?}", other),
    }
    assert_eq!(target, CustomSpuKey::Id(7));
}

#[test]
fn truncated_key_underflows() {
    let key = CustomSpuKey::Name(String::from("abc"));
    let mut bytes: Vec<u8> = Vec::new();
    key.encode(&mut bytes, 13).expect("encode");
    bytes.truncate(bytes.len() - 3);
    let err = decode_key(&bytes, 13).unwrap_err();
    assert_eq!(err, WireError::BufferUnderflow);
}

#[test]
fn key_text_is_name_or_decimal() {
    assert_eq!(CustomSpuKey::Name(String::from("alpha")).to_text(), "alpha");
    assert_eq!(CustomSpuKey::Id(0).to_text(), "0");
    assert_eq!(CustomSpuKey::Id(42).to_text(), "42");
    assert_eq!(CustomSpuKey::Id(-7).to_text(), "-7");
    assert_eq!(CustomSpuKey::Id(i32::MIN).to_text(), "-2147483648");
    assert_eq!(CustomSpuKey::Id(i32::MAX).to_text(), "2147483647");
}

#[test]
fn default_key_is_neutral_id() {
    assert_eq!(CustomSpuKey::default(), CustomSpuKey::Id(0));
    assert_eq!(CustomSpuKey::default().type_string(), "Id");
}

#[test]
fn dispatch_tries_kinds_in_order() {
    let req: DeleteRequest<TopicSpec> = DeleteRequest::new(String::from("t1"));
    let erased = ObjectApiDeleteRequest::try_encode_from::<TopicSpec>(req, 13).expect("wrap");
    match resolve_delete(&erased, 13).expect("resolve") {
        ObjectDelete::Topic(d) => {
            assert!(!d.is_force());
            assert_eq!(d.key(), String::from("t1"));
        }
        other => panic!("wrong kind: {:?}", other),
    }

    let req2: DeleteRequest<CustomSpuSpec> = DeleteRequest::new(CustomSpuKey::Id(3));
    let erased2 =
        ObjectApiDeleteRequest::try_encode_from::<CustomSpuSpec>(req2, 13).expect("wrap");
    match resolve_delete(&erased2, 13).expect("resolve") {
        ObjectDelete::CustomSpu(d) => assert_eq!(d.key(), CustomSpuKey::Id(3)),
        other => panic!("wrong kind: {:?}", other),
    }
}

#[test]
fn unregistered_tag_names_unknown_resource_kind() {
    let buffer =
        TypeBuffer::wrap::<SpuSpec, String>(&String::from("payload"), 13).expect("wrap");
    let erased = ObjectApiDeleteRequest::from_buffer(buffer);
    let err = resolve_delete(&erased, 13).unwrap_err();
    match err {
        WireError::UnknownResourceKind { tag } => assert_eq!(tag, "SPU"),
        other => panic!("wrong error: {:?}", other),
    }
}

#[test]
fn matched_tag_with_corrupt_payload_is_a_true_error() {
    // the payload is a lone wire string, no delete request of the kind
    let buffer =
        TypeBuffer::wrap::<CustomSpuSpec, String>(&String::from("zz"), 13).expect("wrap");
    let erased = ObjectApiDeleteRequest::from_buffer(buffer);
    let err = erased.downcast::<CustomSpuSpec>(13).unwrap_err();
    match err {
        WireError::UnknownVariant { tag, .. } => assert_eq!(tag, "zz"),
        other => panic!("wrong error: {:?}", other),
    }
}

#[test]
fn envelope_itself_round_trips_on_the_wire() {
    let req: DeleteRequest<TopicSpec> = DeleteRequest::with(String::from("t2"), true);
    let erased = ObjectApiDeleteRequest::try_encode_from::<TopicSpec>(req, 13).expect("wrap");

    let mut bytes: Vec<u8> = Vec::new();
    encode_frame(&erased, 13, &mut bytes).expect("frame");
    // api key 1002, then version 13, big-endian
    assert_eq!(&bytes[0..4], &[0x03, 0xEA, 0x00, 0x0D]);

    let mut pos: usize = 0;
    let (version, back) = decode_frame(&bytes, &mut pos).expect("decode");
    assert_eq!(version, 13);
    assert_eq!(pos, bytes.len());
    let hit = back.downcast::<TopicSpec>(version).expect("decode").expect("this kind");
    assert!(hit.is_force());
    assert_eq!(hit.key(), String::from("t2"));
}

#[test]
fn frame_with_wrong_api_key_is_invalid() {
    let bytes: Vec<u8> = vec![0x03, 0xE9, 0x00, 0x0D, 0, 0];
    let mut pos: usize = 0;
    let err = decode_frame(&bytes, &mut pos).unwrap_err();
    match err {
        WireError::InvalidData { field } => assert_eq!(field, "api_key"),
        other => panic!("wrong error: {:?}", other),
    }
}

#[test]
fn oversize_string_cannot_be_encoded() {
    let long = "x".repeat(16384);
    let key = CustomSpuKey::Name(long);
    let mut bytes: Vec<u8> = Vec::new();
    let err = key.encode(&mut bytes, 13).unwrap_err();
    assert!(matches!(err, WireError::TooLong { .. }));
    assert!(bytes.is_empty());
}

#[test]
fn bad_boolean_byte_is_invalid_data() {
    let key = CustomSpuKey::Id(1);
    let mut bytes: Vec<u8> = Vec::new();
    key.encode(&mut bytes, 13).expect("encode");
    bytes.push(2);
    let mut target: DeleteRequest<CustomSpuSpec> =
        DeleteRequest::new(CustomSpuSpec::default_key());
    let mut pos: usize = 0;
    let err = target.decode(&bytes, &mut pos, 13).unwrap_err();
    match err {
        WireError::InvalidData { field } => assert_eq!(field, "bool"),
        other => panic!("wrong error: {:?}", other),
    }
}

#[test]
fn bad_scalar_value_is_invalid_data() {
    // a byte count of one character whose scalar value is a surrogate
    let bytes: Vec<u8> = vec![0, 4, 0, 0, 0xD8, 0x00];
    let mut target = CustomSpuKey::Id(0);
    let mut pos: usize = 0;
    let err = target.decode(&bytes, &mut pos, 13).unwrap_err();
    match err {
        WireError::InvalidData { field } => assert_eq!(field, "string"),
        other => panic!("wrong error: {:?}", other),
    }
}

#[test]
fn labels_and_descriptors_are_stable() {
    assert_eq!(<SpuSpec as AdminSpec>::label(), "SPU");
    assert_eq!(<CustomSpuSpec as AdminSpec>::label(), "CustomSpu");
    assert_eq!(<TopicSpec as AdminSpec>::label(), "Topic");
    assert_eq!(<SpuSpec as SpecExt>::object_type(), ObjectType::Spu);
    assert_eq!(<CustomSpuSpec as SpecExt>::object_type(), ObjectType::CustomSpu);
    assert_eq!(ObjectApiDeleteRequest::api_key(), 1002);
    assert_eq!(ObjectApiDeleteRequest::min_api_version(), 1);
    assert_eq!(ObjectApiDeleteRequest::default_api_version(), 13);
}

#[test]
fn spu_converts_by_identity() {
    let incoming = ExternalObject::<SpuSpec> {
        name: String::from("spu-1"),
        spec: SpuSpec { id: 1 },
        status: SpuStatus { online: true },
    };
    let stored = SpuSpec::convert_from_external(incoming, false).expect("convert");
    assert_eq!(stored.key, "spu-1");
    assert_eq!(stored.spec, SpuSpec { id: 1 });
    assert_eq!(stored.status, SpuStatus { online: true });
    assert_eq!(
        SpuSpec::convert_status_from_external(SpuStatus { online: false }),
        SpuStatus { online: false }
    );
    assert_eq!(SpuSpec { id: 9 }.into_external(), SpuSpec { id: 9 });
}

#[test]
fn buffer_codec_round_trips() {
    let original =
        TypeBuffer::wrap::<TopicSpec, String>(&String::from("hello"), 13).expect("wrap");
    let mut bytes: Vec<u8> = Vec::new();
    original.encode(&mut bytes, 13).expect("encode");
    assert_eq!(bytes.len(), original.write_size(13));

    let mut back = TypeBuffer::wrap::<SpuSpec, String>(&String::new(), 13).expect("wrap");
    let mut pos: usize = 0;
    back.decode(&bytes, &mut pos, 13).expect("decode");
    assert_eq!(pos, bytes.len());
    assert_eq!(back, original);
    assert_eq!(back.tag(), "Topic");
}

#[test]
fn unicode_name_round_trips() {
    let name = String::from("t\u{00E9}\u{1F600}pic");
    let key = CustomSpuKey::Name(name.clone());
    let mut bytes: Vec<u8> = Vec::new();
    key.encode(&mut bytes, 13).expect("encode");
    assert_eq!(decode_key(&bytes, 13).expect("decode"), CustomSpuKey::Name(name));
}
