use crate::keys::{bytes_equal, KeyMaterial, KeyMaterialView};
use vstd::prelude::*;

verus! {

/// A serialization format that key material is stored in.
#[derive(Clone, Copy, Debug, PartialEq, Eq, Structural)]
pub enum Format {
    SerdeJson,
    Bincode,
    Cbor,
    Yaml,
    MsgPack,
    Toml,
    /// Pickle, protocol 3.
    PickleProto3,
    /// Pickle, protocol 2.
    PickleProto2,
    FlexBuffers,
    Json5,
    Ron,
    Bson,
}

/// The name of the fixture that holds a format's serialization.
pub open spec fn fixture_name_of(f: Format) -> Seq<char> {
    match f {
        Format::SerdeJson => "serde_json"@,
        Format::Bincode => "bincode"@,
        Format::Cbor => "cbor"@,
        Format::Yaml => "yaml"@,
        Format::MsgPack => "msgpack"@,
        Format::Toml => "toml"@,
        Format::PickleProto3 => "pickle_proto3_true"@,
        Format::PickleProto2 => "pickle_proto3_false"@,
        Format::FlexBuffers => "flexbuffers"@,
        Format::Json5 => "json5"@,
        Format::Ron => "ron"@,
        Format::Bson => "bson"@,
    }
}

/// Every format, in the order in which fixtures are checked and written.
pub open spec fn format_seq() -> Seq<Format> {
    seq![
        Format::SerdeJson,
        Format::Bincode,
        Format::Cbor,
        Format::Yaml,
        Format::MsgPack,
        Format::Toml,
        Format::PickleProto3,
        Format::PickleProto2,
        Format::FlexBuffers,
        Format::Json5,
        Format::Ron,
        Format::Bson,
    ]
}

impl Format {
    /// The name of this format's fixture.
    pub fn fixture_name(&self) -> (r: &'static str)
        ensures
            r@ == fixture_name_of(*self),
    {
        match self {
            Format::SerdeJson => "serde_json",
            Format::Bincode => "bincode",
            Format::Cbor => "cbor",
            Format::Yaml => "yaml",
            Format::MsgPack => "msgpack",
            Format::Toml => "toml",
            Format::PickleProto3 => "pickle_proto3_true",
            Format::PickleProto2 => "pickle_proto3_false",
            Format::FlexBuffers => "flexbuffers",
            Format::Json5 => "json5",
            Format::Ron => "ron",
            Format::Bson => "bson",
        }
    }

    /// Whether pickle output uses protocol 3 (for the two pickle formats).
    pub fn pickle_proto3(&self) -> (r: bool)
        ensures
            r == (*self == Format::PickleProto3),
    {
        match self {
            Format::PickleProto3 => true,
            _ => false,
        }
    }
}

/// Returns every format, in checking order.
pub fn all_formats() -> (r: Vec<Format>)
    ensures
        r@ == format_seq(),
{
    let mut r: Vec<Format> = Vec::new();
    r.push(Format::SerdeJson);
    r.push(Format::Bincode);
    r.push(Format::Cbor);
    r.push(Format::Yaml);
    r.push(Format::MsgPack);
    r.push(Format::Toml);
    r.push(Format::PickleProto3);
    r.push(Format::PickleProto2);
    r.push(Format::FlexBuffers);
    r.push(Format::Json5);
    r.push(Format::Ron);
    r.push(Format::Bson);
    assert(r@ =~= format_seq());
    r
}

/// How a stored fixture fails to match the key material.
#[derive(Clone, Copy, Debug, PartialEq, Eq, Structural)]
pub enum Mismatch {
    /// The stored bytes do not decode.
    Decode,
    /// The stored bytes decode to other key material.
    ValueDiffers,
    /// The key material does not encode.
    Encode,
    /// The key material encodes to other bytes than those stored.
    BytesDiffer,
}

/// The verdict on a fixture: `stored` are its bytes, `restored` what they
/// decoded to, `reencoded` what `original` encodes to. The checks run in
/// order: decoding, the decoded value, encoding, the encoded bytes.
pub open spec fn fixture_verdict(
    stored: Seq<u8>,
    restored: Option<KeyMaterialView>,
    original: KeyMaterialView,
    reencoded: Option<Seq<u8>>,
) -> Result<(), Mismatch> {
    match restored {
        None => Err(Mismatch::Decode),
        Some(v) => if v != original {
            Err(Mismatch::ValueDiffers)
        } else {
            match reencoded {
                None => Err(Mismatch::Encode),
                Some(b) => if b != stored {
                    Err(Mismatch::BytesDiffer)
                } else {
                    Ok(())
                },
            }
        },
    }
}

/// The view of a decoded value, if any.
pub open spec fn restored_view(restored: Option<KeyMaterial>) -> Option<KeyMaterialView> {
    match restored {
        Some(m) => Some(m@),
        None => None,
    }
}

/// The view of encoded bytes, if any.
pub open spec fn reencoded_view(reencoded: Option<Vec<u8>>) -> Option<Seq<u8>> {
    match reencoded {
        Some(b) => Some(b@),
        None => None,
    }
}

/// Decides whether a fixture still matches `original`: the stored bytes
/// must decode to `original`, and `original` must encode to the stored
/// bytes.
pub fn check_fixture(
    stored: &Vec<u8>,
    restored: &Option<KeyMaterial>,
    original: &KeyMaterial,
    reencoded: &Option<Vec<u8>>,
) -> (r: Result<(), Mismatch>)
    ensures
        r == fixture_verdict(
            stored@,
            restored_view(*restored),
            original@,
            reencoded_view(*reencoded),
        ),
{
    match restored {
        None => Err(Mismatch::Decode),
        Some(m) => {
            if !(*m == *original) {
                Err(Mismatch::ValueDiffers)
            } else {
                match reencoded {
                    None => Err(Mismatch::Encode),
                    Some(b) => {
                        if !bytes_equal(b, stored) {
                            Err(Mismatch::BytesDiffer)
                        } else {
                            Ok(())
                        }
                    },
                }
            }
        },
    }
}

} // verus!
