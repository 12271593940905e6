//! Embeds versioned, structured metadata inside a compiled artifact's ELF
//! notes and recovers it later by inspecting the artifact's bytes.
//!
//! The note layout lives in [`note`], the payload schema in [`payload`],
//! the embedding side in [`embed`] and the extraction pipeline in
//! [`extract`].

pub mod embed;
pub mod extract;
pub mod note;
pub mod payload;

pub use embed::{embed_notes, embed_records, EmbeddedRecords};
pub use extract::{extract_from_notes, parse, ParseError, RawNote};
pub use note::{Note, Type};
pub use payload::{Data, RawFields};
