//! Scales: parsing, projection onto the chromatic reference, rendering, and
//! the relative major/minor derivation.

use vstd::prelude::*;

use crate::notes::flats_used;
use crate::notes::is_key_letter;
use crate::notes::key_canonical;
use crate::notes::key_pc;
use crate::notes::key_wf;
use crate::notes::lemma_note_name_wf;
use crate::notes::note_name;
use crate::notes::note_str;
use crate::notes::pc_of_key;
use crate::notes::Accidentals;
use crate::parsing::acc_of;
use crate::parsing::lemma_normalized_key_canonical;
use crate::parsing::normalize_key;
use crate::parsing::normalize_key_exec;
use crate::parsing::parse_key_acc;
use crate::parsing::quality_token;
use crate::parsing::raw_key;
use crate::parsing::ParseError;

verus! {

/// The two scale qualities, each standing for a fixed 7-step interval
/// pattern that sums to 12 semitones.
#[derive(Clone, Copy, Debug, PartialEq, Eq, Structural)]
pub enum ScaleTypes {
    Maj,
    Min,
}

/// Semitone offset of the `i`-th scale degree above the root: the running
/// sum of the quality's interval pattern (major 2-2-1-2-2-2, natural minor
/// 2-1-2-2-1-2, counting the root as degree 0).
pub open spec fn degree_offset(quality: ScaleTypes, i: int) -> int
    recommends
        0 <= i < 7,
{
    match quality {
        ScaleTypes::Maj => {
            if i == 0 {
                0
            } else if i == 1 {
                2
            } else if i == 2 {
                4
            } else if i == 3 {
                5
            } else if i == 4 {
                7
            } else if i == 5 {
                9
            } else {
                11
            }
        },
        ScaleTypes::Min => {
            if i == 0 {
                0
            } else if i == 1 {
                2
            } else if i == 2 {
                3
            } else if i == 3 {
                5
            } else if i == 4 {
                7
            } else if i == 5 {
                8
            } else {
                10
            }
        },
    }
}

/// Scale quality named by a quality token, if any: `maj` or `min`.
pub open spec fn scale_type_of_token(token: Seq<char>) -> Option<ScaleTypes> {
    if token == seq!['m', 'a', 'j'] {
        Some(ScaleTypes::Maj)
    } else if token == seq!['m', 'i', 'n'] {
        Some(ScaleTypes::Min)
    } else {
        None
    }
}

/// The token that names a scale quality.
pub open spec fn scale_type_token(quality: ScaleTypes) -> Seq<char> {
    match quality {
        ScaleTypes::Maj => seq!['m', 'a', 'j'],
        ScaleTypes::Min => seq!['m', 'i', 'n'],
    }
}

/// A scale: a root key with an accidental and a quality.  Built by
/// [`Scale::parse`], which normalizes enharmonic respellings of the key, so
/// every scale it returns is well formed.
#[derive(Debug)]
pub struct Scale {
    pub key: String,
    pub accidental: Accidentals,
    pub scale_type: ScaleTypes,
}

impl Scale {
    /// A well-formed scale: its key appears verbatim in the chromatic
    /// reference spelling that its accidental selects, so note lookups on it
    /// cannot miss.
    pub open spec fn wf(self) -> bool {
        &&& key_wf(self.key@)
        &&& key_canonical(self.key@, self.accidental)
    }

    /// Pitch class of the root.
    pub open spec fn root_pc(self) -> int {
        key_pc(self.key@)
    }

    /// Pitch class of the `i`-th scale degree.
    pub open spec fn degree_pc(self, i: int) -> int
        recommends
            0 <= i < 7,
    {
        (self.root_pc() + degree_offset(self.scale_type, i)) % 12
    }

    /// Name of the `i`-th scale degree in the reference spelling selected by
    /// the scale's accidental.
    pub open spec fn note_at(self, i: int) -> Seq<char>
        recommends
            0 <= i < 7,
    {
        note_name(flats_used(self.accidental), self.degree_pc(i))
    }

    /// The set of the scale's seven pitch classes.
    pub open spec fn pitch_classes(self) -> Set<int> {
        Set::new(|p: int| exists|i: int| 0 <= i < 7 && p == self.degree_pc(i))
    }

    /// Relationship between a scale and its relative scale: the quality is
    /// flipped, the accidental carried over, and the new key is the
    /// reference name nine semitones above a major root or three above a
    /// minor one.
    pub open spec fn is_relative_of(self, r: Scale) -> bool {
        &&& r.accidental == self.accidental
        &&& r.scale_type == (match self.scale_type {
            ScaleTypes::Maj => ScaleTypes::Min,
            ScaleTypes::Min => ScaleTypes::Maj,
        })
        &&& r.key@ == note_name(
            flats_used(self.accidental),
            (self.root_pc() + match self.scale_type {
                ScaleTypes::Maj => 9int,
                ScaleTypes::Min => 3int,
            }) % 12,
        )
    }

    /// The notes joined with `-` separators, as a character sequence:
    /// `prefix_string(n)` covers the first `n` notes.
    pub open spec fn prefix_string(self, n: int) -> Seq<char>
        recommends
            1 <= n <= 7,
        decreases n,
    {
        if n <= 1 {
            self.note_at(0)
        } else {
            self.prefix_string(n - 1) + seq!['-'] + self.note_at(n - 1)
        }
    }

    /// The rendering of the whole scale produced by [`Scale::to_string`].
    pub open spec fn spec_string(self) -> Seq<char> {
        self.prefix_string(7)
    }

    /// Parses a scale name: key, accidental and a `maj` or `min` quality
    /// token.  The enharmonic keys Cb, Fb, E# and B# are normalized to their
    /// single-letter equivalents; the accidental is kept as parsed.
    ///
    /// Returns `Ok` exactly when the input is at least 4 characters long,
    /// starts with a key letter, and its quality token is `maj` or `min`;
    /// each error variant reports the offending substring.
    pub fn parse(scale_name: &str) -> (r: Result<Scale, ParseError>)
        ensures
            match r {
                Ok(s) => {
                    &&& scale_name@.len() >= 4
                    &&& is_key_letter(scale_name@[0])
                    &&& scale_type_of_token(quality_token(scale_name@)) == Some(s.scale_type)
                    &&& s.key@ == normalize_key(raw_key(scale_name@))
                    &&& s.accidental == acc_of(scale_name@)
                    &&& s.wf()
                },
                Err(e) => match e {
                    ParseError::InputTooShort(s) => scale_name@.len() < 4 && s@ == scale_name@,
                    ParseError::InvalidKey(s) => scale_name@.len() >= 4 && !is_key_letter(
                        scale_name@[0],
                    ) && s@ == raw_key(scale_name@),
                    ParseError::UnknownScaleQuality(s) => scale_name@.len() >= 4 && is_key_letter(
                        scale_name@[0],
                    ) && scale_type_of_token(quality_token(scale_name@)) is None && s@
                        == scale_name@,
                    ParseError::UnknownChordQuality(_) => false,
                },
            },
    {
        let (key, accidental) = match parse_key_acc(scale_name) {
            Ok(p) => p,
            Err(e) => {
                return Err(e);
            },
        };
        let key_chars: usize = match accidental {
            Accidentals::Sharp | Accidentals::Flat => 2,
            Accidentals::Natural => 1,
        };
        let n = scale_name.unicode_len();
        let ghost token = quality_token(scale_name@);
        let scale_type = if n - key_chars == 3 {
            let q0 = scale_name.get_char(key_chars);
            let q1 = scale_name.get_char(key_chars + 1);
            let q2 = scale_name.get_char(key_chars + 2);
            proof {
                assert(token.len() == 3);
                assert(token[0] == scale_name@[key_chars as int]);
                assert(token[1] == scale_name@[key_chars + 1]);
                assert(token[2] == scale_name@[key_chars + 2]);
            }
            if q0 == 'm' && q1 == 'a' && q2 == 'j' {
                proof {
                    assert(token =~= seq!['m', 'a', 'j']);
                }
                ScaleTypes::Maj
            } else if q0 == 'm' && q1 == 'i' && q2 == 'n' {
                proof {
                    assert(token =~= seq!['m', 'i', 'n']);
                }
                ScaleTypes::Min
            } else {
                proof {
                    assert(token != seq!['m', 'a', 'j'] && token != seq!['m', 'i', 'n']);
                }
                return Err(ParseError::UnknownScaleQuality(String::from_str(scale_name)));
            }
        } else {
            proof {
                assert(token.len() != 3);
                assert(token != seq!['m', 'a', 'j'] && token != seq!['m', 'i', 'n']);
            }
            return Err(ParseError::UnknownScaleQuality(String::from_str(scale_name)));
        };
        let normalized = normalize_key_exec(key);
        proof {
            lemma_normalized_key_canonical(raw_key(scale_name@), accidental);
        }
        Ok(Scale { key: normalized, accidental, scale_type })
    }

    /// Projects the scale onto the chromatic reference: the seven note
    /// names, root first, each degree's name read off at the degree's pitch
    /// class in the spelling selected by the accidental.
    pub fn to_notes(&self) -> (notes: Vec<&'static str>)
        requires
            self.wf(),
        ensures
            notes@.len() == 7,
            forall|i: int| 0 <= i < 7 ==> notes@[i]@ == self.note_at(i),
    {
        let root = pc_of_key(self.key.as_str());
        let flats = match self.accidental {
            Accidentals::Flat => true,
            Accidentals::Sharp | Accidentals::Natural => false,
        };
        let mut notes: Vec<&'static str> = Vec::new();
        for i in 0..7
            invariant
                notes@.len() == i,
                forall|j: int| 0 <= j < i ==> notes@[j]@ == self.note_at(j),
                root == self.root_pc(),
                root < 12,
                flats == flats_used(self.accidental),
        {
            let offset = degree_offset_exec(self.scale_type, i);
            notes.push(note_str(flats, (root + offset) % 12));
        }
        notes
    }

    /// The scale rendered as its notes joined with `-`.
    pub fn to_string(&self) -> (r: String)
        requires
            self.wf(),
        ensures
            r@ == self.spec_string(),
    {
        proof {
            reveal_strlit("-");
        }
        let notes = self.to_notes();
        let mut r = String::from_str(notes[0]);
        for i in 1..7
            invariant
                notes@.len() == 7,
                forall|j: int| 0 <= j < 7 ==> notes@[j]@ == self.note_at(j),
                r@ == self.prefix_string(i as int),
        {
            r.append("-");
            r.append(notes[i]);
            proof {
                reveal_strlit("-");
                assert("-"@ =~= seq!['-']);
            }
        }
        r
    }

    /// The scale's name: its key followed by its quality token.
    pub fn name(&self) -> (r: String)
        ensures
            r@ == self.key@ + scale_type_token(self.scale_type),
    {
        proof {
            reveal_strlit("maj");
            reveal_strlit("min");
        }
        let mut r = self.key.clone();
        match self.scale_type {
            ScaleTypes::Maj => {
                r.append("maj");
                proof {
                    assert("maj"@ =~= seq!['m', 'a', 'j']);
                }
            },
            ScaleTypes::Min => {
                r.append("min");
                proof {
                    assert("min"@ =~= seq!['m', 'i', 'n']);
                }
            },
        }
        r
    }

    /// The relative scale: the major or natural minor sharing this scale's
    /// seven pitch classes.  A major scale's relative minor is rooted nine
    /// semitones up; a minor scale's relative major three semitones up.  The
    /// accidental, and with it the reference spelling, is carried over.
    pub fn relative(&self) -> (r: Scale)
        requires
            self.wf(),
        ensures
            self.is_relative_of(r),
            r.wf(),
    {
        let root = pc_of_key(self.key.as_str());
        let flats = match self.accidental {
            Accidentals::Flat => true,
            Accidentals::Sharp | Accidentals::Natural => false,
        };
        let (offset, new_type): (u8, ScaleTypes) = match self.scale_type {
            ScaleTypes::Maj => (9, ScaleTypes::Min),
            ScaleTypes::Min => (3, ScaleTypes::Maj),
        };
        let new_pc = (root + offset) % 12;
        let new_key = String::from_str(note_str(flats, new_pc));
        proof {
            lemma_note_name_wf(flats, new_pc as int);
        }
        Scale { key: new_key, accidental: self.accidental, scale_type: new_type }
    }
}

/// Semitone offset of the `i`-th scale degree, as a machine integer.
pub fn degree_offset_exec(quality: ScaleTypes, i: usize) -> (o: u8)
    requires
        i < 7,
    ensures
        o == degree_offset(quality, i as int),
        o < 12,
{
    match quality {
        ScaleTypes::Maj => {
            if i == 0 {
                0
            } else if i == 1 {
                2
            } else if i == 2 {
                4
            } else if i == 3 {
                5
            } else if i == 4 {
                7
            } else if i == 5 {
                9
            } else {
                11
            }
        },
        ScaleTypes::Min => {
            if i == 0 {
                0
            } else if i == 1 {
                2
            } else if i == 2 {
                3
            } else if i == 3 {
                5
            } else if i == 4 {
                7
            } else if i == 5 {
                8
            } else {
                10
            }
        },
    }
}

} // verus!
