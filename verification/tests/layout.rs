use decl::{Note, Type};

fn strs(v: &[&str]) -> Vec<String> {
    v.iter().map(|s| s.to_string()).collect()
}

#[test]
fn layout_exactness() {
    let record = Note::new(Type::Data, b"hi!\0".to_vec()).record_bytes();
    let expected: Vec<u8> = vec![
        5, 0, 0, 0, // namesz: "decl" plus NUL
        4, 0, 0, 0, // descsz: the unpadded payload length
        3, 0, 0, 0, // type: Data
        100, 101, 99, 108, 0, // "decl\0"
        0, 0, 0, // name padding up to a 4-byte boundary
        104, 105, 33, 0, // "hi!\0", already 4-byte aligned
    ];
    assert_eq!(record, expected);
}

#[test]
fn layout_pads_payload() {
    let record = Note::new(Type::Version, b"0.1.0\0".to_vec()).record_bytes();
    let expected: Vec<u8> = vec![
        5, 0, 0, 0, // namesz
        6, 0, 0, 0, // descsz counts only the six payload bytes
        1, 0, 0, 0, // type: Version
        100, 101, 99, 108, 0, 0, 0, 0, // padded name
        48, 46, 49, 46, 48, 0, // "0.1.0\0"
        0, 0, // payload padding up to a 4-byte boundary
    ];
    assert_eq!(record, expected);
    // The payload begins at a 4-byte-aligned offset.
    assert_eq!(20 % 4, 0);
    assert_eq!(&record[20..26], b"0.1.0\0");
    // The record length is a whole number of 4-byte units.
    assert_eq!(record.len() % 4, 0);
}

#[test]
fn note_new_fields() {
    let note = Note::new(Type::Data, b"xyz".to_vec());
    assert_eq!(note.namesz, 5);
    assert_eq!(note.descsz, 3);
    assert_eq!(note.type_code, 3);
    assert_eq!(note.name, b"decl\0");
    assert_eq!(note.desc, b"xyz");
}

#[test]
fn embedded_version_record() {
    let records = decl::embed_records(42, &strs(&["a", "b"])).unwrap();
    let expected: Vec<u8> = vec![
        5, 0, 0, 0, 6, 0, 0, 0, 1, 0, 0, 0, //
        100, 101, 99, 108, 0, 0, 0, 0, //
        48, 46, 49, 46, 48, 0, 0, 0,
    ];
    assert_eq!(records.version_record, expected);
}

#[test]
fn embedded_data_record() {
    let records = decl::embed_records(42, &strs(&["a", "b"])).unwrap();
    let json = b"{\"an_int\":42,\"some_strings\":[\"a\",\"b\"]}";
    let mut expected = Vec::new();
    expected.extend_from_slice(&5u32.to_le_bytes());
    expected.extend_from_slice(&((json.len() + 1) as u32).to_le_bytes());
    expected.extend_from_slice(&3u32.to_le_bytes());
    expected.extend_from_slice(b"decl\0\0\0\0");
    expected.extend_from_slice(json);
    expected.push(0);
    while expected.len() % 4 != 0 {
        expected.push(0);
    }
    assert_eq!(records.data_record, expected);
}

#[test]
fn embed_notes_shape() {
    let notes = decl::embed_notes(-1, &strs(&[]));
    assert_eq!(notes.len(), 2);
    assert_eq!(notes[0].name, b"decl\0");
    assert_eq!(notes[0].n_type, 1);
    assert_eq!(notes[0].desc, b"0.1.0\0");
    assert_eq!(notes[1].name, b"decl\0");
    assert_eq!(notes[1].n_type, 3);
    assert_eq!(notes[1].desc, b"{\"an_int\":-1,\"some_strings\":[]}\0");
}
