//! Derives the notes of a musical scale or chord from a short textual name
//! such as `"Cmaj"`, `"D#min"` or `"Abdim7"`.
//!
//! A name is parsed into a root key (letter plus accidental) and a quality
//! token; the key selects a position in a 12-tone chromatic reference, and
//! the quality selects a fixed interval rule that is projected onto that
//! reference to produce the ordered note names.

pub mod chord;
pub mod laws;
pub mod notes;
pub mod parsing;
pub mod scale;

pub use chord::Chord;
pub use chord::ChordTypes;
pub use notes::Accidentals;
pub use parsing::parse_key_acc;
pub use parsing::ParseError;
pub use scale::Scale;
pub use scale::ScaleTypes;
