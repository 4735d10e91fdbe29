use secp_fixtures::fixtures::{all_formats, check_fixture, Format, Mismatch};
use secp_fixtures::keys::fixed_key_material;

#[test]
fn twelve_formats_with_distinct_names() {
    let formats = all_formats();
    assert_eq!(formats.len(), 12);
    let mut names: Vec<&str> = formats.iter().map(|f| f.fixture_name()).collect();
    assert_eq!(names[0], "serde_json");
    assert_eq!(names[11], "bson");
    names.sort();
    names.dedup();
    assert_eq!(names.len(), 12);
}

#[test]
fn fixture_names() {
    assert_eq!(Format::SerdeJson.fixture_name(), "serde_json");
    assert_eq!(Format::Bincode.fixture_name(), "bincode");
    assert_eq!(Format::Cbor.fixture_name(), "cbor");
    assert_eq!(Format::Yaml.fixture_name(), "yaml");
    assert_eq!(Format::MsgPack.fixture_name(), "msgpack");
    assert_eq!(Format::Toml.fixture_name(), "toml");
    assert_eq!(Format::PickleProto3.fixture_name(), "pickle_proto3_true");
    assert_eq!(Format::PickleProto2.fixture_name(), "pickle_proto3_false");
    assert_eq!(Format::FlexBuffers.fixture_name(), "flexbuffers");
    assert_eq!(Format::Json5.fixture_name(), "json5");
    assert_eq!(Format::Ron.fixture_name(), "ron");
    assert_eq!(Format::Bson.fixture_name(), "bson");
}

#[test]
fn pickle_protocol_choice() {
    assert!(Format::PickleProto3.pickle_proto3());
    assert!(!Format::PickleProto2.pickle_proto3());
    assert!(!Format::SerdeJson.pickle_proto3());
}

#[test]
fn matching_fixture_passes() {
    let original = fixed_key_material();
    let stored = vec![1u8, 2, 3];
    let r = check_fixture(&stored, &Some(fixed_key_material()), &original, &Some(vec![1, 2, 3]));
    assert_eq!(r, Ok(()));
}

#[test]
fn empty_fixture_that_matches_passes() {
    let original = fixed_key_material();
    let r = check_fixture(&vec![], &Some(fixed_key_material()), &original, &Some(vec![]));
    assert_eq!(r, Ok(()));
}

#[test]
fn undecodable_fixture() {
    let original = fixed_key_material();
    let r = check_fixture(&vec![9u8], &None, &original, &Some(vec![9]));
    assert_eq!(r, Err(Mismatch::Decode));
}

#[test]
fn fixture_with_other_value() {
    let original = fixed_key_material();
    let mut other = fixed_key_material();
    other.sig[0] ^= 0x80;
    let r = check_fixture(&vec![9u8], &Some(other), &original, &Some(vec![9]));
    assert_eq!(r, Err(Mismatch::ValueDiffers));
}

#[test]
fn material_that_does_not_encode() {
    let original = fixed_key_material();
    let r = check_fixture(&vec![9u8], &Some(fixed_key_material()), &original, &None);
    assert_eq!(r, Err(Mismatch::Encode));
}

#[test]
fn fixture_with_other_bytes() {
    let original = fixed_key_material();
    let r = check_fixture(&vec![9u8, 8], &Some(fixed_key_material()), &original, &Some(vec![9, 7]));
    assert_eq!(r, Err(Mismatch::BytesDiffer));
    let r = check_fixture(&vec![9u8], &Some(fixed_key_material()), &original, &Some(vec![9, 9]));
    assert_eq!(r, Err(Mismatch::BytesDiffer));
}

#[test]
fn decode_failure_is_reported_first() {
    let original = fixed_key_material();
    let r = check_fixture(&vec![1u8], &None, &original, &None);
    assert_eq!(r, Err(Mismatch::Decode));
}
