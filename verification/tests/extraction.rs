use decl::{parse, ParseError, Type};

fn strs(v: &[&str]) -> Vec<String> {
    v.iter().map(|s| s.to_string()).collect()
}

/// Build an ELF artifact, optionally with a ".note.decl" section of the
/// given kind holding the given bytes.
fn make_elf(arch: object::Architecture, section: Option<(&[u8], object::SectionKind)>) -> Vec<u8> {
    let mut obj = object::write::Object::new(
        object::BinaryFormat::Elf,
        arch,
        object::Endianness::Little,
    );
    if let Some((data, kind)) = section {
        let id = obj.add_section(Vec::new(), b".note.decl".to_vec(), kind);
        obj.set_section_data(id, data.to_vec(), 4);
    }
    obj.write().unwrap()
}

fn make_note_elf(section_data: &[u8]) -> Vec<u8> {
    make_elf(
        object::Architecture::X86_64,
        Some((section_data, object::SectionKind::Note)),
    )
}

/// Lay out one note record by hand, for notes of other producers and
/// malformed cases the library would not emit.
fn raw_record(name: &[u8], n_type: u32, desc: &[u8]) -> Vec<u8> {
    let mut out = Vec::new();
    out.extend_from_slice(&(name.len() as u32).to_le_bytes());
    out.extend_from_slice(&(desc.len() as u32).to_le_bytes());
    out.extend_from_slice(&n_type.to_le_bytes());
    out.extend_from_slice(name);
    while out.len() % 4 != 0 {
        out.push(0);
    }
    out.extend_from_slice(desc);
    while out.len() % 4 != 0 {
        out.push(0);
    }
    out
}

fn embedded_section(an_int: i32, some_strings: &[&str]) -> Vec<u8> {
    let records = decl::embed_records(an_int, &strs(some_strings)).unwrap();
    let mut section = records.version_record;
    section.extend_from_slice(&records.data_record);
    section
}

#[test]
fn round_trip() {
    let elf = make_note_elf(&embedded_section(42, &["a", "b"]));
    let data = parse(&elf).unwrap();
    assert_eq!(data.an_int, 42);
    assert_eq!(data.some_strings, strs(&["a", "b"]));
}

#[test]
fn round_trip_elf32() {
    let elf = make_elf(
        object::Architecture::I386,
        Some((&embedded_section(-7, &["x"]), object::SectionKind::Note)),
    );
    let data = parse(&elf).unwrap();
    assert_eq!(data.an_int, -7);
    assert_eq!(data.some_strings, strs(&["x"]));
}

#[test]
fn round_trip_no_strings() {
    let elf = make_note_elf(&embedded_section(i32::MIN, &[]));
    let data = parse(&elf).unwrap();
    assert_eq!(data.an_int, i32::MIN);
    assert!(data.some_strings.is_empty());
}

#[test]
fn round_trip_tricky_strings() {
    let strings = ["", "with \"quotes\" and \\", "añejo", "line\nbreak"];
    let elf = make_note_elf(&embedded_section(i32::MAX, &strings));
    let data = parse(&elf).unwrap();
    assert_eq!(data.an_int, i32::MAX);
    assert_eq!(data.some_strings, strs(&strings));
}

#[test]
fn round_trip_without_container() {
    let notes = decl::embed_notes(42, &strs(&["a", "b"]));
    let data = decl::extract_from_notes(&notes).unwrap();
    assert_eq!(data.an_int, 42);
    assert_eq!(data.some_strings, strs(&["a", "b"]));
}

#[test]
fn missing_section() {
    let elf = make_elf(object::Architecture::X86_64, None);
    assert!(matches!(parse(&elf), Err(ParseError::MissingSection)));
}

#[test]
fn invalid_section_type() {
    let elf = make_elf(
        object::Architecture::X86_64,
        Some((&embedded_section(1, &[]), object::SectionKind::Data)),
    );
    assert!(matches!(parse(&elf), Err(ParseError::InvalidSectionType(_))));
}

#[test]
fn missing_version_note() {
    let records = decl::embed_records(42, &strs(&["a"])).unwrap();
    let elf = make_note_elf(&records.data_record);
    assert!(matches!(
        parse(&elf),
        Err(ParseError::MissingNote(Type::Version))
    ));
}

#[test]
fn missing_data_note() {
    let records = decl::embed_records(42, &strs(&["a"])).unwrap();
    let elf = make_note_elf(&records.version_record);
    assert!(matches!(parse(&elf), Err(ParseError::MissingNote(Type::Data))));
}

#[test]
fn unsupported_version() {
    let mut section = decl::Note::new(Type::Version, b"9.9.9\0".to_vec()).record_bytes();
    let records = decl::embed_records(42, &strs(&["a"])).unwrap();
    section.extend_from_slice(&records.data_record);
    match parse(&make_note_elf(&section)) {
        Err(ParseError::UnsupportedVersion(v)) => assert_eq!(v, "9.9.9"),
        other => panic!("expected UnsupportedVersion, got {other:?}"),
    }
}

#[test]
fn name_isolation() {
    let mut section = raw_record(b"other\0", 3, b"junk that is not json");
    section.extend_from_slice(&embedded_section(42, &["a", "b"]));
    section.extend_from_slice(&raw_record(b"other\0", 1, b"9.9.9\0"));
    let data = parse(&make_note_elf(&section)).unwrap();
    assert_eq!(data.an_int, 42);
    assert_eq!(data.some_strings, strs(&["a", "b"]));
}

#[test]
fn unknown_type_notes_are_skipped() {
    let mut section = raw_record(b"decl\0", 7, b"reserved\0");
    section.extend_from_slice(&embedded_section(5, &["k"]));
    let data = parse(&make_note_elf(&section)).unwrap();
    assert_eq!(data.an_int, 5);
    assert_eq!(data.some_strings, strs(&["k"]));
}

#[test]
fn first_note_wins() {
    let mut section = embedded_section(1, &["first"]);
    section.extend_from_slice(&decl::Note::new(Type::Version, b"9.9.9\0".to_vec()).record_bytes());
    section.extend_from_slice(&embedded_section(2, &["second"]));
    let data = parse(&make_note_elf(&section)).unwrap();
    assert_eq!(data.an_int, 1);
    assert_eq!(data.some_strings, strs(&["first"]));
}

#[test]
fn malformed_payload() {
    let mut section = decl::Note::new(Type::Version, b"0.1.0\0".to_vec()).record_bytes();
    let data_note = decl::Note::new(Type::Data, b"not json\0".to_vec()).record_bytes();
    section.extend_from_slice(&data_note);
    assert!(matches!(parse(&make_note_elf(&section)), Err(ParseError::Json)));
}

#[test]
fn payload_integer_out_of_range() {
    let mut section = decl::Note::new(Type::Version, b"0.1.0\0".to_vec()).record_bytes();
    let body = b"{\"an_int\":3000000000,\"some_strings\":[]}\0";
    section.extend_from_slice(&decl::Note::new(Type::Data, body.to_vec()).record_bytes());
    assert!(matches!(parse(&make_note_elf(&section)), Err(ParseError::Json)));
}

#[test]
fn payload_missing_field() {
    let mut section = decl::Note::new(Type::Version, b"0.1.0\0".to_vec()).record_bytes();
    let body = b"{\"an_int\":1}\0";
    section.extend_from_slice(&decl::Note::new(Type::Data, body.to_vec()).record_bytes());
    assert!(matches!(parse(&make_note_elf(&section)), Err(ParseError::Json)));
}

#[test]
fn version_not_terminated() {
    let mut section = decl::Note::new(Type::Version, b"0.1.0".to_vec()).record_bytes();
    let records = decl::embed_records(42, &strs(&[])).unwrap();
    section.extend_from_slice(&records.data_record);
    assert!(matches!(parse(&make_note_elf(&section)), Err(ParseError::CStr)));
}

#[test]
fn version_interior_nul() {
    let mut section = decl::Note::new(Type::Version, b"0.\01.0\0".to_vec()).record_bytes();
    let records = decl::embed_records(42, &strs(&[])).unwrap();
    section.extend_from_slice(&records.data_record);
    assert!(matches!(parse(&make_note_elf(&section)), Err(ParseError::CStr)));
}

#[test]
fn version_invalid_utf8() {
    let mut section = decl::Note::new(Type::Version, vec![0xff, 0xfe, 0]).record_bytes();
    let records = decl::embed_records(42, &strs(&[])).unwrap();
    section.extend_from_slice(&records.data_record);
    assert!(matches!(parse(&make_note_elf(&section)), Err(ParseError::Utf8)));
}

#[test]
fn not_a_container() {
    let bytes = b"hello, this is not an object file at all";
    assert!(matches!(parse(bytes), Err(ParseError::ReadObject(_))));
}

#[test]
fn unsupported_container_kind() {
    let bytes = b"!<arch>\n                somearchive data";
    assert!(matches!(
        parse(bytes),
        Err(ParseError::UnsupportedFileKind(_))
    ));
}

#[test]
fn truncated_header() {
    let bytes = [0x7f, b'E', b'L', b'F', 2, 1, 1, 0, 0, 0, 0, 0, 0, 0, 0, 0];
    assert!(matches!(parse(&bytes), Err(ParseError::ReadObject(_))));
}
