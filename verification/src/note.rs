use vstd::prelude::*;

verus! {

/// Producer identifier stored in every note record this library emits:
/// the bytes of "decl" followed by a terminating NUL, five bytes in all.
pub open spec fn spec_producer_name() -> Seq<u8> {
    seq![100u8, 101u8, 99u8, 108u8, 0u8]
}

/// The producer identifier without its terminating NUL: the bytes of "decl".
pub open spec fn spec_producer_stem() -> Seq<u8> {
    seq![100u8, 101u8, 99u8, 108u8]
}

/// The producer identifier as an executable value.
pub fn producer_name() -> (r: Vec<u8>)
    ensures
        r@ == spec_producer_name(),
{
    let mut v: Vec<u8> = Vec::new();
    v.push(100);
    v.push(101);
    v.push(99);
    v.push(108);
    v.push(0);
    proof {
        assert(v@ =~= spec_producer_name());
    }
    v
}

/// The producer identifier without its terminator, as an executable value.
pub fn producer_stem() -> (r: Vec<u8>)
    ensures
        r@ == spec_producer_stem(),
{
    let mut v: Vec<u8> = Vec::new();
    v.push(100);
    v.push(101);
    v.push(99);
    v.push(108);
    proof {
        assert(v@ =~= spec_producer_stem());
    }
    v
}

/// The name of the artifact section that holds this producer's notes:
/// the bytes of ".note.decl".
pub open spec fn spec_section_name() -> Seq<u8> {
    seq![46u8, 110u8, 111u8, 116u8, 101u8, 46u8, 100u8, 101u8, 99u8, 108u8]
}

/// The section name as an executable value.
pub fn section_name() -> (r: Vec<u8>)
    ensures
        r@ == spec_section_name(),
{
    let mut v: Vec<u8> = Vec::new();
    v.push(46);
    v.push(110);
    v.push(111);
    v.push(116);
    v.push(101);
    v.push(46);
    v.push(100);
    v.push(101);
    v.push(99);
    v.push(108);
    proof {
        assert(v@ =~= spec_section_name());
    }
    v
}

/// The closed set of note discriminators this producer understands.
/// `Version` marks the note whose payload is the schema version string,
/// `Data` the note whose payload is the encoded data itself.
#[derive(Clone, Copy, Debug, PartialEq, Eq, Structural)]
pub enum Type {
    Version,
    Data,
}

impl Type {
    /// The numeric discriminator stored in a note record's type field.
    pub open spec fn spec_code(self) -> u32 {
        match self {
            Type::Version => 1u32,
            Type::Data => 3u32,
        }
    }

    /// Executable counterpart of `spec_code`.
    #[verifier::when_used_as_spec(spec_code)]
    pub fn code(self) -> (r: u32)
        ensures
            r == self.spec_code(),
    {
        match self {
            Type::Version => 1,
            Type::Data => 3,
        }
    }
}

/// Number of zero bytes that bring a field of length `len` up to the next
/// 4-byte boundary.
pub open spec fn spec_pad4(len: int) -> int {
    (4 - len % 4) % 4
}

/// A 32-bit field in its stored byte order (least significant byte first).
pub open spec fn spec_u32_le(x: u32) -> Seq<u8> {
    seq![
        (x % 256) as u8,
        ((x / 256) % 256) as u8,
        ((x / 65536) % 256) as u8,
        ((x / 16777216) % 256) as u8,
    ]
}

/// The exact byte sequence of one note record: the three 32-bit header
/// fields, the producer name padded to a 4-byte boundary, and the payload
/// padded to a 4-byte boundary.  The declared sizes count the unpadded
/// fields; the padding exists only in the physical layout, so the payload
/// always begins at a 4-byte-aligned offset (here, offset 20).
pub open spec fn spec_note_bytes(type_code: u32, desc: Seq<u8>) -> Seq<u8> {
    spec_u32_le(5u32) + spec_u32_le(desc.len() as u32) + spec_u32_le(type_code)
        + spec_producer_name() + seq![0u8, 0u8, 0u8] + desc
        + Seq::new(spec_pad4(desc.len() as int) as nat, |i: int| 0u8)
}

/// One note record before layout: the header fields and the unpadded
/// name and payload bytes.
pub struct Note {
    pub namesz: u32,
    pub descsz: u32,
    pub type_code: u32,
    pub name: Vec<u8>,
    pub desc: Vec<u8>,
}

impl Note {
    /// A well-formed record carries the producer name, counts the name's
    /// five bytes in `namesz`, and counts only the unpadded payload in
    /// `descsz`.
    pub open spec fn wf(self) -> bool {
        &&& self.namesz == 5
        &&& self.name@ == spec_producer_name()
        &&& self.descsz == self.desc@.len()
    }

    /// Build a record of the given type around an opaque payload.
    pub fn new(note_type: Type, desc: Vec<u8>) -> (r: Note)
        requires
            desc@.len() <= u32::MAX,
        ensures
            r.wf(),
            r.type_code == note_type.spec_code(),
            r.desc@ == desc@,
    {
        let descsz = desc.len() as u32;
        Note {
            namesz: 5,
            descsz,
            type_code: note_type.code(),
            name: producer_name(),
            desc,
        }
    }

    /// The record's exact physical layout.
    pub fn record_bytes(&self) -> (r: Vec<u8>)
        requires
            self.wf(),
        ensures
            r@ == spec_note_bytes(self.type_code, self.desc@),
            r@.len() == 20 + self.desc@.len() + spec_pad4(self.desc@.len() as int),
            r@.len() % 4 == 0,
    {
        let mut out: Vec<u8> = Vec::new();
        push_u32_le(&mut out, self.namesz);
        push_u32_le(&mut out, self.descsz);
        push_u32_le(&mut out, self.type_code);
        push_bytes(&mut out, &self.name);
        out.push(0);
        out.push(0);
        out.push(0);
        push_bytes(&mut out, &self.desc);
        let pad = (4 - self.desc.len() % 4) % 4;
        assert(pad == spec_pad4(self.desc@.len() as int));
        let ghost before_pad = out@;
        let mut k: usize = 0;
        while k < pad
            invariant
                k <= pad,
                out@ == before_pad + Seq::new(k as nat, |i: int| 0u8),
            decreases pad - k,
        {
            out.push(0);
            k = k + 1;
            proof {
                assert(out@ =~= before_pad + Seq::new(k as nat, |i: int| 0u8));
            }
        }
        proof {
            assert(out@ =~= spec_note_bytes(self.type_code, self.desc@));
        }
        out
    }
}

/// Layout exactness: where each field of a note record sits.  The header
/// fields occupy the first 12 bytes, the padded name the next 8, and the
/// payload begins at offset 20, a 4-byte-aligned offset, with `descsz`
/// counting only its unpadded bytes.
pub proof fn lemma_note_layout(type_code: u32, desc: Seq<u8>)
    ensures
        spec_note_bytes(type_code, desc).len() == 20 + desc.len() + spec_pad4(desc.len() as int),
        spec_note_bytes(type_code, desc).subrange(0, 4) == spec_u32_le(5u32),
        spec_note_bytes(type_code, desc).subrange(4, 8) == spec_u32_le(desc.len() as u32),
        spec_note_bytes(type_code, desc).subrange(8, 12) == spec_u32_le(type_code),
        spec_note_bytes(type_code, desc).subrange(12, 17) == spec_producer_name(),
        spec_note_bytes(type_code, desc).subrange(20, 20 + desc.len() as int) == desc,
        spec_note_bytes(type_code, desc).len() % 4 == 0,
{
    let record = spec_note_bytes(type_code, desc);
    assert(record.subrange(0, 4) =~= spec_u32_le(5u32));
    assert(record.subrange(4, 8) =~= spec_u32_le(desc.len() as u32));
    assert(record.subrange(8, 12) =~= spec_u32_le(type_code));
    assert(record.subrange(12, 17) =~= spec_producer_name());
    assert(record.subrange(20, 20 + desc.len() as int) =~= desc);
}

/// Append a 32-bit field least significant byte first.
fn push_u32_le(out: &mut Vec<u8>, x: u32)
    ensures
        final(out)@ == old(out)@ + spec_u32_le(x),
{
    out.push((x % 256) as u8);
    out.push((x / 256 % 256) as u8);
    out.push((x / 65536 % 256) as u8);
    out.push((x / 16777216 % 256) as u8);
    proof {
        assert(out@ =~= old(out)@ + spec_u32_le(x));
    }
}

/// Append a copy of `src`.
fn push_bytes(out: &mut Vec<u8>, src: &Vec<u8>)
    ensures
        final(out)@ == old(out)@ + src@,
{
    let mut i: usize = 0;
    while i < src.len()
        invariant
            i <= src@.len(),
            out@ == old(out)@ + src@.take(i as int),
        decreases src@.len() - i,
    {
        out.push(src[i]);
        i = i + 1;
        proof {
            assert(out@ =~= old(out)@ + src@.take(i as int));
        }
    }
    proof {
        assert(src@.take(src@.len() as int) =~= src@);
    }
}

} // verus!
