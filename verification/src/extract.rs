use vstd::prelude::*;

use object::elf::{FileHeader32, FileHeader64};
use object::read::elf::{FileHeader, SectionHeader};
use object::Endianness;

use crate::embed::spec_embedded_notes;
use crate::note::{section_name, spec_producer_name, spec_producer_stem, spec_section_name, Type};
use crate::payload::{
    json_fields, json_to_fields, nul_free, payload_json, spec_version_bytes, spec_version_desc,
    version_bytes, Data, DataModel, RawFields,
};

verus! {

/// One note record as the container layer hands it over: the stored name
/// bytes (terminator included when the producer stored one), the numeric
/// type, and the unpadded payload bytes.
pub struct RawNote {
    pub name: Vec<u8>,
    pub n_type: u32,
    pub desc: Vec<u8>,
}

/// The mathematical content of a `RawNote`.
#[verifier::ext_equal]
pub struct RawNoteModel {
    pub name: Seq<u8>,
    pub n_type: u32,
    pub desc: Seq<u8>,
}

impl View for RawNote {
    type V = RawNoteModel;

    open spec fn view(&self) -> RawNoteModel {
        RawNoteModel { name: self.name@, n_type: self.n_type, desc: self.desc@ }
    }
}

/// The content of a sequence of raw notes.
pub open spec fn notes_model(notes: Seq<RawNote>) -> Seq<RawNoteModel> {
    notes.map_values(|n: RawNote| n@)
}

/// Everything that can go wrong while extracting a payload from an
/// artifact, surfaced immediately and never retried.
#[derive(Debug)]
pub enum ParseError {
    /// The input is a recognized container, but not a supported ELF variant.
    UnsupportedFileKind(String),
    /// The container layer could not read the input.
    ReadObject(String),
    /// No section named ".note.decl" exists.
    MissingSection,
    /// The section exists but is not a notes section; carries its raw type.
    InvalidSectionType(u32),
    /// No name-matching note of the required type exists.
    MissingNote(Type),
    /// A note payload that must be NUL-terminated text is not.
    CStr,
    /// A note payload that must be UTF-8 text is not.
    Utf8,
    /// The version note decodes, but no schema of that version is implemented.
    UnsupportedVersion(String),
    /// The data note payload is not a JSON document of the dispatched schema.
    Json,
}

/// The mathematical content of a `ParseError`.
pub enum ErrorModel {
    UnsupportedFileKind(Seq<char>),
    ReadObject(Seq<char>),
    MissingSection,
    InvalidSectionType(u32),
    MissingNote(Type),
    CStr,
    Utf8,
    UnsupportedVersion(Seq<char>),
    Json,
}

impl View for ParseError {
    type V = ErrorModel;

    open spec fn view(&self) -> ErrorModel {
        match self {
            ParseError::UnsupportedFileKind(s) => ErrorModel::UnsupportedFileKind(s@),
            ParseError::ReadObject(s) => ErrorModel::ReadObject(s@),
            ParseError::MissingSection => ErrorModel::MissingSection,
            ParseError::InvalidSectionType(t) => ErrorModel::InvalidSectionType(*t),
            ParseError::MissingNote(t) => ErrorModel::MissingNote(*t),
            ParseError::CStr => ErrorModel::CStr,
            ParseError::Utf8 => ErrorModel::Utf8,
            ParseError::UnsupportedVersion(s) => ErrorModel::UnsupportedVersion(s@),
            ParseError::Json => ErrorModel::Json,
        }
    }
}

/// The content of an extraction result.
pub open spec fn result_model(r: Result<Data, ParseError>) -> Result<DataModel, ErrorModel> {
    match r {
        Ok(d) => Ok(d@),
        Err(e) => Err(e@),
    }
}

/// The text decoded from UTF-8 bytes, or `None` when the bytes are not
/// valid UTF-8.  A function of the bytes alone.
pub uninterp spec fn utf8_decode(bytes: Seq<u8>) -> Option<Seq<char>>;

/// Relies on String::from_utf8: decoding is a deterministic function of the
/// bytes.
#[verifier::external_body]
fn utf8_to_string(bytes: &Vec<u8>) -> (r: Option<String>)
    ensures
        r matches Some(s) ==> utf8_decode(bytes@) == Some(s@),
        (utf8_decode(bytes@) is Some) ==> r is Some,
        (utf8_decode(bytes@) is None) ==> r is None,
{
    String::from_utf8(bytes.clone()).ok()
}

/// The logical payload of NUL-terminated text: the bytes before the
/// terminator, provided the final byte is the terminator and no earlier
/// byte is NUL.
pub open spec fn spec_cstr_payload(bytes: Seq<u8>) -> Option<Seq<u8>> {
    if bytes.len() > 0 && bytes[bytes.len() - 1] == 0u8 && (forall|i: int|
        0 <= i < bytes.len() - 1 ==> bytes[i] != 0u8) {
        Some(bytes.take(bytes.len() - 1))
    } else {
        None
    }
}

/// Strip the terminator from NUL-terminated text.
pub fn cstr_payload(bytes: &Vec<u8>) -> (r: Option<Vec<u8>>)
    ensures
        r matches Some(p) ==> spec_cstr_payload(bytes@) == Some(p@),
        r is Some <==> spec_cstr_payload(bytes@) is Some,
{
    if bytes.len() == 0 {
        return None;
    }
    if bytes[bytes.len() - 1] != 0 {
        return None;
    }
    let mut body: Vec<u8> = Vec::new();
    let mut i: usize = 0;
    while i < bytes.len() - 1
        invariant
            bytes@.len() > 0,
            i <= bytes@.len() - 1,
            body@ == bytes@.take(i as int),
            forall|j: int| 0 <= j < i ==> bytes@[j] != 0u8,
        decreases bytes@.len() - 1 - i,
    {
        if bytes[i] == 0 {
            return None;
        }
        body.push(bytes[i]);
        i = i + 1;
        proof {
            assert(body@ =~= bytes@.take(i as int));
        }
    }
    Some(body)
}

/// Whether a stored note name, its optional trailing NUL stripped, is the
/// producer name.
pub open spec fn spec_name_matches(name: Seq<u8>) -> bool {
    name == spec_producer_stem() || name == spec_producer_name()
}

/// Compare two byte strings.
fn bytes_equal(a: &Vec<u8>, b: &Vec<u8>) -> (r: bool)
    ensures
        r == (a@ == b@),
{
    if a.len() != b.len() {
        return false;
    }
    let mut i: usize = 0;
    while i < a.len()
        invariant
            a@.len() == b@.len(),
            i <= a@.len(),
            forall|j: int| 0 <= j < i ==> a@[j] == b@[j],
        decreases a@.len() - i,
    {
        if a[i] != b[i] {
            return false;
        }
        i = i + 1;
    }
    proof {
        assert(a@ =~= b@);
    }
    true
}

/// Whether a stored note name belongs to this producer.
pub fn name_matches(name: &Vec<u8>) -> (r: bool)
    ensures
        r == spec_name_matches(name@),
{
    let stem = crate::note::producer_stem();
    let full = crate::note::producer_name();
    bytes_equal(name, &stem) || bytes_equal(name, &full)
}

/// The first name-matching note of the given type, in file order.
pub open spec fn spec_find_note(notes: Seq<RawNoteModel>, type_code: u32) -> Option<RawNoteModel>
    decreases notes.len(),
{
    if notes.len() == 0 {
        None
    } else if spec_name_matches(notes[0].name) && notes[0].n_type == type_code {
        Some(notes[0])
    } else {
        spec_find_note(notes.drop_first(), type_code)
    }
}

/// Find the first name-matching note of the given type; `None` when no such
/// note exists.
pub fn find_note(notes: &Vec<RawNote>, type_code: u32) -> (r: Option<usize>)
    ensures
        r matches Some(j) ==> j < notes@.len() && spec_find_note(notes_model(notes@), type_code)
            == Some(notes@[j as int]@),
        r is None ==> spec_find_note(notes_model(notes@), type_code) is None,
{
    let ghost model = notes_model(notes@);
    proof {
        assert(model.skip(0) =~= model);
    }
    let mut i: usize = 0;
    while i < notes.len()
        invariant
            i <= notes@.len(),
            model == notes_model(notes@),
            spec_find_note(model, type_code) == spec_find_note(
                model.skip(i as int),
                type_code,
            ),
        decreases notes@.len() - i,
    {
        proof {
            assert(model.skip(i as int)[0] == model[i as int]);
            assert(model.skip(i as int).drop_first() =~= model.skip(i as int + 1));
        }
        if name_matches(&notes[i].name) && notes[i].n_type == type_code {
            return Some(i);
        }
        i = i + 1;
    }
    proof {
        assert(model.skip(notes@.len() as int) =~= Seq::<RawNoteModel>::empty());
    }
    None
}

/// The payload fields of the JSON layer's answer.
pub open spec fn fields_model(fields: Option<RawFields>) -> Option<(i64, Seq<Seq<char>>)> {
    match fields {
        None => None,
        Some(p) => Some((p.an_int, p.some_strings.deep_view())),
    }
}

/// What the pipeline returns for each possible answer of the JSON layer:
/// a payload when the fields are there and the integer fits the schema's
/// 32-bit range, and a payload-decode failure otherwise.
pub open spec fn spec_decode_fields(fields: Option<(i64, Seq<Seq<char>>)>) -> Result<
    DataModel,
    ErrorModel,
> {
    match fields {
        None => Err(ErrorModel::Json),
        Some(f) => if i32::MIN <= f.0 <= i32::MAX {
            Ok(DataModel { an_int: f.0 as i32, some_strings: f.1 })
        } else {
            Err(ErrorModel::Json)
        },
    }
}

/// Turn the JSON layer's answer into the pipeline's result.
pub fn payload_from_fields(fields: Option<RawFields>) -> (r: Result<Data, ParseError>)
    ensures
        result_model(r) == spec_decode_fields(fields_model(fields)),
{
    match fields {
        None => Err(ParseError::Json),
        Some(p) => {
            if p.an_int >= i32::MIN as i64 && p.an_int <= i32::MAX as i64 {
                Ok(Data { an_int: p.an_int as i32, some_strings: p.some_strings })
            } else {
                Err(ParseError::Json)
            }
        },
    }
}

/// The data-note step of the pipeline, reached only under schema version
/// "0.1.0": the first name-matching `Data` note's payload, NUL-stripped,
/// handed to the JSON layer.
pub open spec fn spec_extract_data(notes: Seq<RawNoteModel>) -> Result<DataModel, ErrorModel> {
    match spec_find_note(notes, 3u32) {
        None => Err(ErrorModel::MissingNote(Type::Data)),
        Some(dn) => match spec_cstr_payload(dn.desc) {
            None => Err(ErrorModel::CStr),
            Some(body) => spec_decode_fields(json_fields(body)),
        },
    }
}

/// The whole validation pipeline over the notes of the ".note.decl"
/// section, in file order: find the first name-matching `Version` note,
/// decode its NUL-terminated text, dispatch on the version string, then
/// find the first name-matching `Data` note and decode its payload.  Notes
/// of other producers are skipped; notes of this producer with unknown
/// types are skipped as well.
pub open spec fn spec_extract(notes: Seq<RawNoteModel>) -> Result<DataModel, ErrorModel> {
    match spec_find_note(notes, 1u32) {
        None => Err(ErrorModel::MissingNote(Type::Version)),
        Some(vn) => match spec_cstr_payload(vn.desc) {
            None => Err(ErrorModel::CStr),
            Some(vbody) => if vbody == spec_version_bytes() {
                spec_extract_data(notes)
            } else {
                match utf8_decode(vbody) {
                    None => Err(ErrorModel::Utf8),
                    Some(text) => Err(ErrorModel::UnsupportedVersion(text)),
                }
            },
        },
    }
}

/// Run the pipeline; the public wrapper `extract_from_notes` adds the
/// round-trip guarantee.
fn extract_impl(notes: &Vec<RawNote>) -> (r: Result<Data, ParseError>)
    ensures
        result_model(r) == spec_extract(notes_model(notes@)),
{
    let vidx = match find_note(notes, 1) {
        None => {
            return Err(ParseError::MissingNote(Type::Version));
        },
        Some(j) => j,
    };
    let vbody = match cstr_payload(&notes[vidx].desc) {
        None => {
            return Err(ParseError::CStr);
        },
        Some(b) => b,
    };
    let vb = version_bytes();
    if bytes_equal(&vbody, &vb) {
        let didx = match find_note(notes, 3) {
            None => {
                return Err(ParseError::MissingNote(Type::Data));
            },
            Some(j) => j,
        };
        let dbody = match cstr_payload(&notes[didx].desc) {
            None => {
                return Err(ParseError::CStr);
            },
            Some(b) => b,
        };
        let fields = json_to_fields(&dbody);
        payload_from_fields(fields)
    } else {
        match utf8_to_string(&vbody) {
            None => Err(ParseError::Utf8),
            Some(s) => Err(ParseError::UnsupportedVersion(s)),
        }
    }
}

/// Appending a terminator to NUL-free text gives exactly that text back
/// when the terminator is stripped.
pub proof fn lemma_cstr_of_terminated(body: Seq<u8>)
    requires
        nul_free(body),
    ensures
        spec_cstr_payload(body + seq![0u8]) == Some(body),
{
    let b = body + seq![0u8];
    assert(b[b.len() - 1] == 0u8);
    assert(forall|i: int| 0 <= i < b.len() - 1 ==> b[i] == body[i]);
    assert(b.take(b.len() - 1) =~= body);
}

/// The version string contains no NUL byte.
pub proof fn lemma_version_bytes_nul_free()
    ensures
        nul_free(spec_version_bytes()),
{
    let s = spec_version_bytes();
    assert forall|i: int| 0 <= i < s.len() implies s[i] != 0u8 by {
        if i == 0 {
            assert(s[0] == 48u8);
        } else if i == 1 {
            assert(s[1] == 46u8);
        } else if i == 2 {
            assert(s[2] == 49u8);
        } else if i == 3 {
            assert(s[3] == 46u8);
        } else {
            assert(s[4] == 48u8);
        }
    }
}

/// Round trip: the two notes that `embed_notes` stores for a payload are
/// extracted back to exactly that payload, provided the JSON layer inverts
/// its own encoding of it (which `payload_to_json` guarantees for every
/// text it produces).
pub proof fn lemma_round_trip(an_int: i32, some_strings: Seq<Seq<char>>)
    requires
        nul_free(payload_json(an_int, some_strings)),
        json_fields(payload_json(an_int, some_strings)) == Some((an_int as i64, some_strings)),
    ensures
        spec_extract(spec_embedded_notes(an_int, some_strings)) == Ok::<DataModel, ErrorModel>(
            DataModel { an_int, some_strings },
        ),
{
    let notes = spec_embedded_notes(an_int, some_strings);
    assert(spec_name_matches(notes[0].name));
    assert(spec_find_note(notes, 1u32) == Some(notes[0]));
    lemma_version_bytes_nul_free();
    lemma_cstr_of_terminated(spec_version_bytes());
    assert(spec_cstr_payload(notes[0].desc) == Some(spec_version_bytes()));
    let rest = notes.drop_first();
    assert(rest[0] == notes[1]);
    assert(spec_find_note(notes, 3u32) == spec_find_note(rest, 3u32));
    assert(spec_find_note(rest, 3u32) == Some(notes[1]));
    lemma_cstr_of_terminated(payload_json(an_int, some_strings));
    assert(spec_cstr_payload(notes[1].desc) == Some(payload_json(an_int, some_strings)));
    assert((an_int as i64) as i32 == an_int);
}

/// Run the pipeline over the notes of a section.  The first clause pins the
/// result exactly; the second is the round-trip law: on the two notes of an
/// embedding the pipeline returns the embedded payload unchanged.
pub fn extract_from_notes(notes: &Vec<RawNote>) -> (r: Result<Data, ParseError>)
    ensures
        result_model(r) == spec_extract(notes_model(notes@)),
        forall|an_int: i32, ss: Seq<Seq<char>>|
            (notes_model(notes@) == spec_embedded_notes(an_int, ss) && nul_free(
                payload_json(an_int, ss),
            ) && json_fields(payload_json(an_int, ss)) == Some((an_int as i64, ss))) ==> (
            r matches Ok(d) && d@ == (DataModel { an_int, some_strings: ss })),
{
    let r = extract_impl(notes);
    proof {
        assert forall|an_int: i32, ss: Seq<Seq<char>>|
            (notes_model(notes@) == spec_embedded_notes(an_int, ss) && nul_free(
                payload_json(an_int, ss),
            ) && json_fields(payload_json(an_int, ss)) == Some((an_int as i64, ss))) implies (
        r matches Ok(d) && d@ == (DataModel { an_int, some_strings: ss })) by {
            lemma_round_trip(an_int, ss);
        }
    }
    r
}

/// When no name-matching note of the given type exists, none is found.
pub proof fn lemma_find_note_none(notes: Seq<RawNoteModel>, type_code: u32)
    requires
        forall|i: int|
            0 <= i < notes.len() ==> !(spec_name_matches(#[trigger] notes[i].name)
                && notes[i].n_type == type_code),
    ensures
        spec_find_note(notes, type_code) is None,
    decreases notes.len(),
{
    if notes.len() > 0 {
        let rest = notes.drop_first();
        assert forall|i: int|
            0 <= i < rest.len() implies !(spec_name_matches(#[trigger] rest[i].name)
            && rest[i].n_type == type_code) by {
            assert(rest[i] == notes[i + 1]);
        }
        lemma_find_note_none(rest, type_code);
    }
}

/// Missing half, first form: with no name-matching `Version` note among the
/// section's notes, extraction reports exactly that the version note is
/// missing, whatever else the section holds.
pub proof fn lemma_missing_version(notes: Seq<RawNoteModel>)
    requires
        forall|i: int|
            0 <= i < notes.len() ==> !(spec_name_matches(#[trigger] notes[i].name)
                && notes[i].n_type == 1u32),
    ensures
        spec_extract(notes) == Err::<DataModel, ErrorModel>(ErrorModel::MissingNote(Type::Version)),
{
    lemma_find_note_none(notes, 1u32);
}

/// Missing half, second form: with a well-formed `Version` note of the
/// implemented version but no name-matching `Data` note, extraction reports
/// exactly that the data note is missing.
pub proof fn lemma_missing_data(notes: Seq<RawNoteModel>, vn: RawNoteModel)
    requires
        spec_find_note(notes, 1u32) == Some(vn),
        vn.desc == spec_version_desc(),
        forall|i: int|
            0 <= i < notes.len() ==> !(spec_name_matches(#[trigger] notes[i].name)
                && notes[i].n_type == 3u32),
    ensures
        spec_extract(notes) == Err::<DataModel, ErrorModel>(ErrorModel::MissingNote(Type::Data)),
{
    lemma_version_bytes_nul_free();
    lemma_cstr_of_terminated(spec_version_bytes());
    lemma_find_note_none(notes, 3u32);
}

/// Unsupported schema: when the first name-matching `Version` note carries
/// NUL-terminated text other than the implemented version string, extraction
/// fails on the version alone -- the result does not depend on any data
/// note, so the data payload is never decoded.
pub proof fn lemma_unsupported_version(notes: Seq<RawNoteModel>, vn: RawNoteModel, body: Seq<u8>)
    requires
        spec_find_note(notes, 1u32) == Some(vn),
        spec_cstr_payload(vn.desc) == Some(body),
        body != spec_version_bytes(),
    ensures
        spec_extract(notes) == (match utf8_decode(body) {
            None => Err::<DataModel, ErrorModel>(ErrorModel::Utf8),
            Some(text) => Err::<DataModel, ErrorModel>(ErrorModel::UnsupportedVersion(text)),
        }),
        spec_extract(notes) is Err,
{
}

/// Name isolation: inserting a note of any other producer anywhere in the
/// section changes nothing about what is found.
pub proof fn lemma_find_note_skip_foreign(
    notes: Seq<RawNoteModel>,
    k: int,
    foreign: RawNoteModel,
    type_code: u32,
)
    requires
        0 <= k <= notes.len(),
        !spec_name_matches(foreign.name),
    ensures
        spec_find_note(notes.insert(k, foreign), type_code) == spec_find_note(notes, type_code),
    decreases notes.len(),
{
    let grown = notes.insert(k, foreign);
    if k == 0 {
        assert(grown[0] == foreign);
        assert(grown.drop_first() =~= notes);
    } else {
        assert(grown[0] == notes[0]);
        if spec_name_matches(notes[0].name) && notes[0].n_type == type_code {
        } else {
            assert(grown.drop_first() =~= notes.drop_first().insert(k - 1, foreign));
            lemma_find_note_skip_foreign(notes.drop_first(), k - 1, foreign, type_code);
        }
    }
}

/// Name isolation for the whole pipeline: a note whose stored name is not
/// this producer's is ignored wherever it sits, whatever its type and
/// payload.
pub proof fn lemma_foreign_note_ignored(notes: Seq<RawNoteModel>, k: int, foreign: RawNoteModel)
    requires
        0 <= k <= notes.len(),
        !spec_name_matches(foreign.name),
    ensures
        spec_extract(notes.insert(k, foreign)) == spec_extract(notes),
{
    lemma_find_note_skip_foreign(notes, k, foreign, 1u32);
    lemma_find_note_skip_foreign(notes, k, foreign, 3u32);
}

/// How the container layer classifies the input bytes.
enum FileClass {
    /// A 32-bit ELF artifact.
    Elf32,
    /// A 64-bit ELF artifact.
    Elf64,
    /// A container the layer recognizes but this reader does not support;
    /// carries the layer's description of it.
    Unsupported(String),
    /// Bytes the layer cannot read at all; carries its message.
    Unreadable(String),
}

/// The ELF class of the input bytes: `Some(false)` for a 32-bit artifact,
/// `Some(true)` for a 64-bit one, `None` for anything else.  A function of
/// the bytes alone.
pub uninterp spec fn elf_class(file: Seq<u8>) -> Option<bool>;

/// Relies on object::FileKind::parse: classification reads only the leading
/// bytes of the buffer and is a deterministic function of them.
#[verifier::external_body]
fn classify_file(file: &[u8]) -> (r: FileClass)
    ensures
        (r is Elf32) == (elf_class(file@) == Some(false)),
        (r is Elf64) == (elf_class(file@) == Some(true)),
{
    match object::FileKind::parse(file) {
        Ok(object::FileKind::Elf32) => FileClass::Elf32,
        Ok(object::FileKind::Elf64) => FileClass::Elf64,
        Ok(kind) => FileClass::Unsupported(format!("{:?}", kind)),
        Err(e) => FileClass::Unreadable(format!("{}", e)),
    }
}

/// Carrier for object::read::Error, the container layer's error type.
#[verifier::external_type_specification]
#[verifier::external_body]
pub struct ExReadError(object::read::Error);

/// Relies on the Display of object::read::Error for the diagnostic text of
/// a container-level failure.
#[verifier::external_body]
fn read_err(e: object::read::Error) -> (r: ParseError)
    ensures
        r is ReadObject,
{
    ParseError::ReadObject(format!("{}", e))
}

/// The note records of the named section of a 32-bit ELF artifact, in file
/// order, each with its stored name bytes, numeric type and payload bytes;
/// `None` when the artifact cannot be read, has no such section, or the
/// section is not a notes section.  A function of the bytes alone.
pub uninterp spec fn elf32_decl_notes(file: Seq<u8>, section: Seq<u8>) -> Option<Seq<RawNoteModel>>;

/// The same for a 64-bit ELF artifact.
pub uninterp spec fn elf64_decl_notes(file: Seq<u8>, section: Seq<u8>) -> Option<Seq<RawNoteModel>>;

/// Relies on object's 32-bit ELF reader: FileHeader32::parse, endian,
/// sections, SectionTable::section_by_name, SectionHeader::notes and
/// NoteIterator::next, all deterministic functions of the file bytes.
/// Returns every note record of the named section in file order; the name
/// bytes are handed over as stored, nothing stripped.
#[verifier::external_body]
fn elf32_notes(file: &[u8], section: &Vec<u8>) -> (r: Result<Vec<RawNote>, ParseError>)
    ensures
        r matches Ok(notes) ==> elf32_decl_notes(file@, section@) == Some(notes_model(notes@)),
        (elf32_decl_notes(file@, section@) is Some) ==> r is Ok,
        (elf32_decl_notes(file@, section@) is None) ==> r is Err,
        r matches Err(e) ==> (e is ReadObject || e is MissingSection || e is InvalidSectionType),
{
    let elf = FileHeader32::<Endianness>::parse(file).map_err(read_err)?;
    let endian = elf.endian().map_err(read_err)?;
    let sections = elf.sections(endian, file).map_err(read_err)?;
    let (_, sec) = sections.section_by_name(endian, section.as_slice()).ok_or(ParseError::MissingSection)?;
    let kind = sec.sh_type(endian).0;
    let mut iter = sec.notes(endian, file).map_err(read_err)?.ok_or(ParseError::InvalidSectionType(kind))?;
    let mut notes = Vec::new();
    while let Some(n) = iter.next().map_err(read_err)? {
        notes.push(RawNote { name: n.name_bytes().to_vec(), n_type: n.n_type(endian).0, desc: n.desc().to_vec() });
    }
    Ok(notes)
}

/// Relies on object's 64-bit ELF reader, as `elf32_notes` does on the
/// 32-bit one.
#[verifier::external_body]
fn elf64_notes(file: &[u8], section: &Vec<u8>) -> (r: Result<Vec<RawNote>, ParseError>)
    ensures
        r matches Ok(notes) ==> elf64_decl_notes(file@, section@) == Some(notes_model(notes@)),
        (elf64_decl_notes(file@, section@) is Some) ==> r is Ok,
        (elf64_decl_notes(file@, section@) is None) ==> r is Err,
        r matches Err(e) ==> (e is ReadObject || e is MissingSection || e is InvalidSectionType),
{
    let elf = FileHeader64::<Endianness>::parse(file).map_err(read_err)?;
    let endian = elf.endian().map_err(read_err)?;
    let sections = elf.sections(endian, file).map_err(read_err)?;
    let (_, sec) = sections.section_by_name(endian, section.as_slice()).ok_or(ParseError::MissingSection)?;
    let kind = sec.sh_type(endian).0;
    let mut iter = sec.notes(endian, file).map_err(read_err)?.ok_or(ParseError::InvalidSectionType(kind))?;
    let mut notes = Vec::new();
    while let Some(n) = iter.next().map_err(read_err)? {
        notes.push(RawNote { name: n.name_bytes().to_vec(), n_type: n.n_type(endian).0, desc: n.desc().to_vec() });
    }
    Ok(notes)
}

/// Read the payload embedded in an artifact: classify the bytes as a
/// supported ELF variant, collect the note records of the ".note.decl"
/// section through the container layer, and run the validation pipeline
/// over them.  Container-level failures surface as the container error
/// variants; once the notes are in hand the result is exactly what
/// `spec_extract` says of them.
pub fn parse(file_contents: &[u8]) -> (r: Result<Data, ParseError>)
    ensures
        (elf_class(file_contents@) is None) ==> (r matches Err(e) && (e is UnsupportedFileKind
            || e is ReadObject)),
        (elf_class(file_contents@) == Some(false)) ==> match elf32_decl_notes(
            file_contents@,
            spec_section_name(),
        ) {
            None => r matches Err(e) && (e is ReadObject || e is MissingSection
                || e is InvalidSectionType),
            Some(ns) => result_model(r) == spec_extract(ns),
        },
        (elf_class(file_contents@) == Some(true)) ==> match elf64_decl_notes(
            file_contents@,
            spec_section_name(),
        ) {
            None => r matches Err(e) && (e is ReadObject || e is MissingSection
                || e is InvalidSectionType),
            Some(ns) => result_model(r) == spec_extract(ns),
        },
{
    let section = section_name();
    match classify_file(file_contents) {
        FileClass::Elf32 => match elf32_notes(file_contents, &section) {
            Err(e) => Err(e),
            Ok(notes) => extract_from_notes(&notes),
        },
        FileClass::Elf64 => match elf64_notes(file_contents, &section) {
            Err(e) => Err(e),
            Ok(notes) => extract_from_notes(&notes),
        },
        FileClass::Unsupported(s) => Err(ParseError::UnsupportedFileKind(s)),
        FileClass::Unreadable(s) => Err(ParseError::ReadObject(s)),
    }
}

} // verus!
