use vstd::prelude::*;

verus! {

/// The payload carried by a `Data` note under schema version "0.1.0":
/// one signed 32-bit integer and an ordered sequence of strings.
#[derive(Debug)]
pub struct Data {
    pub an_int: i32,
    pub some_strings: Vec<String>,
}

/// The mathematical content of a `Data` value.
#[verifier::ext_equal]
pub struct DataModel {
    pub an_int: i32,
    pub some_strings: Seq<Seq<char>>,
}

impl View for Data {
    type V = DataModel;

    open spec fn view(&self) -> DataModel {
        DataModel { an_int: self.an_int, some_strings: self.some_strings.deep_view() }
    }
}

/// The JSON text that encodes a payload: an object with an "an_int" member
/// holding the integer and a "some_strings" member holding the string array.
/// The text is a function of the two fields alone; its exact spelling is
/// left to the encoder.
pub uninterp spec fn payload_json(an_int: i32, some_strings: Seq<Seq<char>>) -> Seq<u8>;

/// The payload fields recovered from a JSON text, or `None` when the text is
/// not a JSON object carrying an integer "an_int" member and a string-array
/// "some_strings" member.  A function of the bytes alone.
pub uninterp spec fn json_fields(bytes: Seq<u8>) -> Option<(i64, Seq<Seq<char>>)>;

/// Payload fields as the JSON layer hands them back, the integer not yet
/// checked against the 32-bit schema range.
pub struct RawFields {
    pub an_int: i64,
    pub some_strings: Vec<String>,
}

/// The one schema version string this reader implements, as bytes: "0.1.0".
pub open spec fn spec_version_bytes() -> Seq<u8> {
    seq![48u8, 46u8, 49u8, 46u8, 48u8]
}

/// The version note's payload as stored: the version string, NUL-terminated.
pub open spec fn spec_version_desc() -> Seq<u8> {
    spec_version_bytes() + seq![0u8]
}

/// The version string as an executable value.
pub fn version_bytes() -> (r: Vec<u8>)
    ensures
        r@ == spec_version_bytes(),
{
    let mut v: Vec<u8> = Vec::new();
    v.push(48);
    v.push(46);
    v.push(49);
    v.push(46);
    v.push(48);
    proof {
        assert(v@ =~= spec_version_bytes());
    }
    v
}

/// The version note's payload as an executable value.
pub fn version_desc() -> (r: Vec<u8>)
    ensures
        r@ == spec_version_desc(),
{
    let mut v = version_bytes();
    v.push(0);
    proof {
        assert(v@ =~= spec_version_desc());
    }
    v
}

/// Holds when no byte of `s` is NUL.
pub open spec fn nul_free(s: Seq<u8>) -> bool {
    forall|i: int| 0 <= i < s.len() ==> s[i] != 0u8
}

/// Relies on serde_json::to_vec applied to a serde_json::Value object built
/// from the two fields: the produced text is a deterministic function of the
/// fields, is never empty (it is at least "{}"), and never contains a raw
/// NUL byte, because JSON requires control characters inside strings to be
/// escaped and serde_json escapes them.  Serializing a Value with string
/// keys cannot fail.  The last clause is serde_json's round trip: parsing
/// the text this call produced yields the same two fields back.
#[verifier::external_body]
fn encode_payload(an_int: i32, some_strings: &Vec<String>, key_int: &str, key_strings: &str) -> (r: Vec<u8>)
    ensures
        (key_int@ == "an_int"@ && key_strings@ == "some_strings"@) ==> r@ == payload_json(
            an_int,
            some_strings.deep_view(),
        ),
        nul_free(r@),
        r@.len() > 0,
        (key_int@ == "an_int"@ && key_strings@ == "some_strings"@) ==> json_fields(r@) == Some(
            (an_int as i64, some_strings.deep_view()),
        ),
{
    let mut map = serde_json::Map::new();
    map.insert(key_int.to_string(), serde_json::Value::from(an_int));
    let strings: Vec<serde_json::Value> =
        some_strings.iter().map(|s| serde_json::Value::String(s.clone())).collect();
    map.insert(key_strings.to_string(), serde_json::Value::Array(strings));
    serde_json::to_vec(&serde_json::Value::Object(map)).unwrap()
}

/// Relies on serde_json::from_slice to serde_json::Value and on the Value
/// accessors as_object, get, as_i64, as_array and as_str: parsing is a
/// deterministic function of the input bytes.  Extra object members are
/// ignored, as the schema's reader has always done.
#[verifier::external_body]
fn decode_payload(bytes: &Vec<u8>, key_int: &str, key_strings: &str) -> (r: Option<RawFields>)
    ensures
        r matches Some(p) ==> ((key_int@ == "an_int"@ && key_strings@ == "some_strings"@)
            ==> json_fields(bytes@) == Some((p.an_int, p.some_strings.deep_view()))),
        (key_int@ == "an_int"@ && key_strings@ == "some_strings"@ && json_fields(bytes@) is Some)
            ==> r is Some,
        (key_int@ == "an_int"@ && key_strings@ == "some_strings"@ && json_fields(bytes@) is None)
            ==> r is None,
{
    let value: serde_json::Value = match serde_json::from_slice(bytes.as_slice()) {
        Ok(v) => v,
        Err(_) => return None,
    };
    let obj = value.as_object()?;
    let an_int = obj.get(key_int)?.as_i64()?;
    let arr = obj.get(key_strings)?.as_array()?;
    let mut strings: Vec<String> = Vec::new();
    for s in arr {
        strings.push(s.as_str()?.to_string());
    }
    Some(RawFields { an_int, some_strings: strings })
}

/// Encode a payload as JSON text.
pub fn payload_to_json(an_int: i32, some_strings: &Vec<String>) -> (r: Vec<u8>)
    ensures
        r@ == payload_json(an_int, some_strings.deep_view()),
        nul_free(r@),
        r@.len() > 0,
        json_fields(r@) == Some((an_int as i64, some_strings.deep_view())),
{
    encode_payload(an_int, some_strings, "an_int", "some_strings")
}

/// Decode JSON text into payload fields, the integer still unchecked
/// against the 32-bit schema range.
pub fn json_to_fields(bytes: &Vec<u8>) -> (r: Option<RawFields>)
    ensures
        r matches Some(p) ==> json_fields(bytes@) == Some((p.an_int, p.some_strings.deep_view())),
        r is Some <==> json_fields(bytes@) is Some,
{
    decode_payload(bytes, "an_int", "some_strings")
}

} // verus!
