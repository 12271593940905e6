use vstd::prelude::*;

use crate::extract::{notes_model, RawNote, RawNoteModel};
use crate::note::{producer_name, spec_note_bytes, spec_producer_name, Note, Type};
use crate::payload::{
    json_fields, nul_free, payload_json, payload_to_json, spec_version_desc, version_desc,
};

verus! {

/// The two notes one embedding stores, in file order: first the version
/// note, then the data note whose payload is the NUL-terminated JSON text.
pub open spec fn spec_embedded_notes(an_int: i32, some_strings: Seq<Seq<char>>) -> Seq<
    RawNoteModel,
> {
    seq![
        RawNoteModel { name: spec_producer_name(), n_type: 1u32, desc: spec_version_desc() },
        RawNoteModel {
            name: spec_producer_name(),
            n_type: 3u32,
            desc: payload_json(an_int, some_strings) + seq![0u8],
        },
    ]
}

/// Build the two notes that embed one payload, before layout.
pub fn embed_notes(an_int: i32, some_strings: &Vec<String>) -> (r: Vec<RawNote>)
    ensures
        notes_model(r@) == spec_embedded_notes(an_int, some_strings.deep_view()),
        nul_free(payload_json(an_int, some_strings.deep_view())),
        json_fields(payload_json(an_int, some_strings.deep_view())) == Some(
            (an_int as i64, some_strings.deep_view()),
        ),
{
    let mut json = payload_to_json(an_int, some_strings);
    json.push(0);
    let mut r: Vec<RawNote> = Vec::new();
    r.push(RawNote { name: producer_name(), n_type: 1, desc: version_desc() });
    r.push(RawNote { name: producer_name(), n_type: 3, desc: json });
    proof {
        assert(notes_model(r@) =~~= spec_embedded_notes(an_int, some_strings.deep_view()));
    }
    r
}

/// The two note records of one embedding, laid out byte for byte, ready to
/// be placed in the ".note.decl" section of an artifact.
pub struct EmbeddedRecords {
    pub version_record: Vec<u8>,
    pub data_record: Vec<u8>,
}

/// Lay out the two note records that embed one payload.  Returns `None`
/// exactly when the JSON text is too long for its size to be declared in a
/// 32-bit field together with its terminator.
pub fn embed_records(an_int: i32, some_strings: &Vec<String>) -> (r: Option<EmbeddedRecords>)
    ensures
        r matches Some(recs) ==> recs.version_record@ == spec_note_bytes(
            1u32,
            spec_version_desc(),
        ),
        r matches Some(recs) ==> recs.data_record@ == spec_note_bytes(
            3u32,
            payload_json(an_int, some_strings.deep_view()) + seq![0u8],
        ),
        r is Some <==> payload_json(an_int, some_strings.deep_view()).len() + 1 <= u32::MAX,
{
    let json = payload_to_json(an_int, some_strings);
    if json.len() > (u32::MAX - 1) as usize {
        return None;
    }
    let mut data_desc = json;
    data_desc.push(0);
    let version_note = Note::new(Type::Version, version_desc());
    let data_note = Note::new(Type::Data, data_desc);
    let version_record = version_note.record_bytes();
    let data_record = data_note.record_bytes();
    Some(EmbeddedRecords { version_record, data_record })
}

} // verus!
