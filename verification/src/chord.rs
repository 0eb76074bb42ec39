//! Chords: parsing and projection of the fixed semitone offsets of each
//! chord quality onto the chromatic reference.

use vstd::prelude::*;

use crate::notes::flats_used;
use crate::notes::is_key_letter;
use crate::notes::key_canonical;
use crate::notes::key_pc;
use crate::notes::key_wf;
use crate::notes::note_name;
use crate::notes::note_str;
use crate::notes::pc_of_key;
use crate::notes::Accidentals;
use crate::parsing::acc_of;
use crate::parsing::parse_key_acc;
use crate::parsing::quality_token;
use crate::parsing::raw_key;
use crate::parsing::ParseError;

verus! {

/// The chord qualities, each standing for a fixed list of semitone offsets
/// from the root.
#[derive(Clone, Copy, Debug, PartialEq, Eq, Structural)]
pub enum ChordTypes {
    Maj,
    Min,
    Dim,
    Aug,
    Dom7,
    Min7,
    Maj7,
    Sus2,
    Sus4,
}

/// Number of notes in a chord of the given quality: triads have three,
/// sevenths four.
pub open spec fn chord_size(quality: ChordTypes) -> int {
    match quality {
        ChordTypes::Dom7 | ChordTypes::Min7 | ChordTypes::Maj7 => 4,
        _ => 3,
    }
}

/// Semitone offset of the `i`-th chord note above the root.
pub open spec fn chord_offset(quality: ChordTypes, i: int) -> int
    recommends
        0 <= i < chord_size(quality),
{
    match quality {
        ChordTypes::Maj => seq![0int, 4, 7][i],
        ChordTypes::Min => seq![0int, 3, 7][i],
        ChordTypes::Dim => seq![0int, 3, 6][i],
        ChordTypes::Aug => seq![0int, 4, 8][i],
        ChordTypes::Dom7 => seq![0int, 4, 7, 10][i],
        ChordTypes::Min7 => seq![0int, 3, 7, 10][i],
        ChordTypes::Maj7 => seq![0int, 4, 7, 11][i],
        ChordTypes::Sus2 => seq![0int, 2, 7][i],
        ChordTypes::Sus4 => seq![0int, 5, 7][i],
    }
}

/// Chord quality named by a quality token, if any.
pub open spec fn chord_type_of_token(token: Seq<char>) -> Option<ChordTypes> {
    if token == seq!['m', 'a', 'j'] {
        Some(ChordTypes::Maj)
    } else if token == seq!['m', 'i', 'n'] {
        Some(ChordTypes::Min)
    } else if token == seq!['d', 'i', 'm'] {
        Some(ChordTypes::Dim)
    } else if token == seq!['a', 'u', 'g'] {
        Some(ChordTypes::Aug)
    } else if token == seq!['d', 'o', 'm', '7'] {
        Some(ChordTypes::Dom7)
    } else if token == seq!['m', 'i', 'n', '7'] {
        Some(ChordTypes::Min7)
    } else if token == seq!['m', 'a', 'j', '7'] {
        Some(ChordTypes::Maj7)
    } else if token == seq!['s', 'u', 's', '2'] {
        Some(ChordTypes::Sus2)
    } else if token == seq!['s', 'u', 's', '4'] {
        Some(ChordTypes::Sus4)
    } else {
        None
    }
}

/// A chord: a root key with an accidental and a quality.  Unlike scales,
/// chord keys are kept exactly as parsed: the enharmonic respellings Cb,
/// Fb, E# and B# are not rewritten, so a chord's key need not be canonical.
#[derive(Debug)]
pub struct Chord {
    pub key: String,
    pub accidental: Accidentals,
    pub chord_type: ChordTypes,
}

impl Chord {
    /// A well-formed chord: its key is a letter with an optional marker.
    /// The key may still be an enharmonic respelling absent from the
    /// chromatic reference; [`Chord::has_canonical_key`] tells the cases
    /// apart.
    pub open spec fn wf(self) -> bool {
        key_wf(self.key@)
    }

    /// Pitch class of the root.
    pub open spec fn root_pc(self) -> int {
        key_pc(self.key@)
    }

    /// Name of the `i`-th chord note in the reference spelling selected by
    /// the chord's accidental.
    pub open spec fn note_at(self, i: int) -> Seq<char>
        recommends
            0 <= i < chord_size(self.chord_type),
    {
        note_name(flats_used(self.accidental), (self.root_pc() + chord_offset(self.chord_type, i)) % 12)
    }

    /// Parses a chord name: key, accidental and one of the nine chord
    /// quality tokens.  The key is kept as parsed, without enharmonic
    /// normalization.
    ///
    /// Returns `Ok` exactly when the input is at least 4 characters long,
    /// starts with a key letter, and its quality token names a chord
    /// quality; each error variant reports the offending substring.
    pub fn parse(chord_name: &str) -> (r: Result<Chord, ParseError>)
        ensures
            match r {
                Ok(c) => {
                    &&& chord_name@.len() >= 4
                    &&& is_key_letter(chord_name@[0])
                    &&& chord_type_of_token(quality_token(chord_name@)) == Some(c.chord_type)
                    &&& c.key@ == raw_key(chord_name@)
                    &&& c.accidental == acc_of(chord_name@)
                    &&& c.wf()
                },
                Err(e) => match e {
                    ParseError::InputTooShort(s) => chord_name@.len() < 4 && s@ == chord_name@,
                    ParseError::InvalidKey(s) => chord_name@.len() >= 4 && !is_key_letter(
                        chord_name@[0],
                    ) && s@ == raw_key(chord_name@),
                    ParseError::UnknownChordQuality(s) => chord_name@.len() >= 4 && is_key_letter(
                        chord_name@[0],
                    ) && chord_type_of_token(quality_token(chord_name@)) is None && s@
                        == chord_name@,
                    ParseError::UnknownScaleQuality(_) => false,
                },
            },
    {
        let (key, accidental) = match parse_key_acc(chord_name) {
            Ok(p) => p,
            Err(e) => {
                return Err(e);
            },
        };
        let key_chars: usize = match accidental {
            Accidentals::Sharp | Accidentals::Flat => 2,
            Accidentals::Natural => 1,
        };
        let n = chord_name.unicode_len();
        let ghost token = quality_token(chord_name@);
        let token_chars = n - key_chars;
        let chord_type: ChordTypes = if token_chars == 3 {
            let q0 = chord_name.get_char(key_chars);
            let q1 = chord_name.get_char(key_chars + 1);
            let q2 = chord_name.get_char(key_chars + 2);
            proof {
                assert(token.len() == 3);
                assert(token[0] == chord_name@[key_chars as int]);
                assert(token[1] == chord_name@[key_chars + 1]);
                assert(token[2] == chord_name@[key_chars + 2]);
            }
            if q0 == 'm' && q1 == 'a' && q2 == 'j' {
                proof {
                    assert(token =~= seq!['m', 'a', 'j']);
                }
                ChordTypes::Maj
            } else if q0 == 'm' && q1 == 'i' && q2 == 'n' {
                proof {
                    assert(token =~= seq!['m', 'i', 'n']);
                }
                ChordTypes::Min
            } else if q0 == 'd' && q1 == 'i' && q2 == 'm' {
                proof {
                    assert(token =~= seq!['d', 'i', 'm']);
                }
                ChordTypes::Dim
            } else if q0 == 'a' && q1 == 'u' && q2 == 'g' {
                proof {
                    assert(token =~= seq!['a', 'u', 'g']);
                }
                ChordTypes::Aug
            } else {
                proof {
                    assert(chord_type_of_token(token) is None);
                }
                return Err(ParseError::UnknownChordQuality(String::from_str(chord_name)));
            }
        } else if token_chars == 4 {
            let q0 = chord_name.get_char(key_chars);
            let q1 = chord_name.get_char(key_chars + 1);
            let q2 = chord_name.get_char(key_chars + 2);
            let q3 = chord_name.get_char(key_chars + 3);
            proof {
                assert(token.len() == 4);
                assert(token[0] == chord_name@[key_chars as int]);
                assert(token[1] == chord_name@[key_chars + 1]);
                assert(token[2] == chord_name@[key_chars + 2]);
                assert(token[3] == chord_name@[key_chars + 3]);
            }
            if q0 == 'd' && q1 == 'o' && q2 == 'm' && q3 == '7' {
                proof {
                    assert(token =~= seq!['d', 'o', 'm', '7']);
                }
                ChordTypes::Dom7
            } else if q0 == 'm' && q1 == 'i' && q2 == 'n' && q3 == '7' {
                proof {
                    assert(token =~= seq!['m', 'i', 'n', '7']);
                }
                ChordTypes::Min7
            } else if q0 == 'm' && q1 == 'a' && q2 == 'j' && q3 == '7' {
                proof {
                    assert(token =~= seq!['m', 'a', 'j', '7']);
                }
                ChordTypes::Maj7
            } else if q0 == 's' && q1 == 'u' && q2 == 's' && q3 == '2' {
                proof {
                    assert(token =~= seq!['s', 'u', 's', '2']);
                }
                ChordTypes::Sus2
            } else if q0 == 's' && q1 == 'u' && q2 == 's' && q3 == '4' {
                proof {
                    assert(token =~= seq!['s', 'u', 's', '4']);
                }
                ChordTypes::Sus4
            } else {
                proof {
                    assert(chord_type_of_token(token) is None);
                }
                return Err(ParseError::UnknownChordQuality(String::from_str(chord_name)));
            }
        } else {
            proof {
                assert(token.len() != 3 && token.len() != 4);
                assert(chord_type_of_token(token) is None);
            }
            return Err(ParseError::UnknownChordQuality(String::from_str(chord_name)));
        };
        Ok(Chord { key, accidental, chord_type })
    }

    /// Projects the chord onto the chromatic reference: one note name per
    /// offset of the quality, root first, read off in the spelling selected
    /// by the accidental.
    ///
    /// The key must be canonical: looking up an enharmonic respelling such
    /// as Cb in the reference would be an internal invariant violation, not
    /// a user-facing error.
    pub fn to_notes(&self) -> (notes: Vec<&'static str>)
        requires
            self.wf(),
            key_canonical(self.key@, self.accidental),
        ensures
            notes@.len() == chord_size(self.chord_type),
            forall|i: int| 0 <= i < chord_size(self.chord_type) ==> notes@[i]@ == self.note_at(i),
    {
        let root = pc_of_key(self.key.as_str());
        let flats = match self.accidental {
            Accidentals::Flat => true,
            Accidentals::Sharp | Accidentals::Natural => false,
        };
        let size = chord_size_exec(self.chord_type);
        let mut notes: Vec<&'static str> = Vec::new();
        for i in 0..size
            invariant
                notes@.len() == i,
                forall|j: int| 0 <= j < i ==> notes@[j]@ == self.note_at(j),
                root == self.root_pc(),
                root < 12,
                flats == flats_used(self.accidental),
                size == chord_size(self.chord_type),
        {
            let offset = chord_offset_exec(self.chord_type, i);
            notes.push(note_str(flats, (root + offset) % 12));
        }
        notes
    }

    /// Whether the chord's key appears verbatim in the chromatic reference
    /// spelling selected by its accidental, as [`Chord::to_notes`] requires.
    pub fn has_canonical_key(&self) -> (b: bool)
        requires
            self.wf(),
        ensures
            b == key_canonical(self.key@, self.accidental),
    {
        let root = pc_of_key(self.key.as_str());
        let flats = match self.accidental {
            Accidentals::Flat => true,
            Accidentals::Sharp | Accidentals::Natural => false,
        };
        let canonical = String::from_str(note_str(flats, root));
        canonical == self.key
    }
}

/// Number of notes in a chord of the given quality, as a machine integer.
pub fn chord_size_exec(quality: ChordTypes) -> (s: usize)
    ensures
        s == chord_size(quality),
{
    match quality {
        ChordTypes::Dom7 | ChordTypes::Min7 | ChordTypes::Maj7 => 4,
        _ => 3,
    }
}

/// Semitone offset of the `i`-th chord note, as a machine integer.
pub fn chord_offset_exec(quality: ChordTypes, i: usize) -> (o: u8)
    requires
        i < chord_size(quality),
    ensures
        o == chord_offset(quality, i as int),
        o < 12,
{
    match quality {
        ChordTypes::Maj => {
            if i == 0 {
                0
            } else if i == 1 {
                4
            } else {
                7
            }
        },
        ChordTypes::Min => {
            if i == 0 {
                0
            } else if i == 1 {
                3
            } else {
                7
            }
        },
        ChordTypes::Dim => {
            if i == 0 {
                0
            } else if i == 1 {
                3
            } else {
                6
            }
        },
        ChordTypes::Aug => {
            if i == 0 {
                0
            } else if i == 1 {
                4
            } else {
                8
            }
        },
        ChordTypes::Dom7 => {
            if i == 0 {
                0
            } else if i == 1 {
                4
            } else if i == 2 {
                7
            } else {
                10
            }
        },
        ChordTypes::Min7 => {
            if i == 0 {
                0
            } else if i == 1 {
                3
            } else if i == 2 {
                7
            } else {
                10
            }
        },
        ChordTypes::Maj7 => {
            if i == 0 {
                0
            } else if i == 1 {
                4
            } else if i == 2 {
                7
            } else {
                11
            }
        },
        ChordTypes::Sus2 => {
            if i == 0 {
                0
            } else if i == 1 {
                2
            } else {
                7
            }
        },
        ChordTypes::Sus4 => {
            if i == 0 {
                0
            } else if i == 1 {
                5
            } else {
                7
            }
        },
    }
}

} // verus!
