//! Tokenizing a name string into a key, an accidental and a quality token,
//! and the enharmonic normalization applied to scale keys.

use vstd::prelude::*;

use crate::notes::is_key_letter;
use crate::notes::key_wf;
use crate::notes::key_pc;
use crate::notes::key_canonical;
use crate::notes::flats_used;
use crate::notes::letter_pc;
use crate::notes::note_name;
use crate::notes::Accidentals;

verus! {

/// Why a name string was rejected.  Each variant carries the offending
/// substring, so that [`ParseError::message`] can describe the failure.
#[derive(Debug)]
pub enum ParseError {
    /// The input has fewer than 4 characters, shorter than any valid name.
    InputTooShort(String),
    /// The first character of the key is not one of the letters A through G.
    InvalidKey(String),
    /// The token after the key names no scale quality.
    UnknownScaleQuality(String),
    /// The token after the key names no chord quality.
    UnknownChordQuality(String),
}

impl ParseError {
    /// The description carried by this error.
    pub open spec fn spec_message(self) -> Seq<char> {
        match self {
            ParseError::InputTooShort(s) => "Input '"@ + s@ + "' is too short"@,
            ParseError::InvalidKey(s) => "Wrong key value '"@ + s@ + "'"@,
            ParseError::UnknownScaleQuality(s) => "Error parsing scale '"@ + s@
                + "', wrong scale type"@,
            ParseError::UnknownChordQuality(s) => "Wrong chord type: '"@ + s@ + "'"@,
        }
    }

    /// Renders the error as the descriptive failure text shown to the user.
    pub fn message(&self) -> (r: String)
        ensures
            r@ == self.spec_message(),
    {
        match self {
            ParseError::InputTooShort(s) => {
                let mut m = String::from_str("Input '");
                m.append(s.as_str());
                m.append("' is too short");
                m
            },
            ParseError::InvalidKey(s) => {
                let mut m = String::from_str("Wrong key value '");
                m.append(s.as_str());
                m.append("'");
                m
            },
            ParseError::UnknownScaleQuality(s) => {
                let mut m = String::from_str("Error parsing scale '");
                m.append(s.as_str());
                m.append("', wrong scale type");
                m
            },
            ParseError::UnknownChordQuality(s) => {
                let mut m = String::from_str("Wrong chord type: '");
                m.append(s.as_str());
                m.append("'");
                m
            },
        }
    }
}

/// Accidental read off the character right after the root letter.
pub open spec fn acc_of(s: Seq<char>) -> Accidentals
    recommends
        s.len() >= 2,
{
    if s[1] == '#' {
        Accidentals::Sharp
    } else if s[1] == 'b' {
        Accidentals::Flat
    } else {
        Accidentals::Natural
    }
}

/// Length of the key prefix: two characters when an accidental marker is
/// present, otherwise one.
pub open spec fn key_len(s: Seq<char>) -> int
    recommends
        s.len() >= 2,
{
    if s[1] == '#' || s[1] == 'b' {
        2
    } else {
        1
    }
}

/// The key substring of a name, before any normalization.
pub open spec fn raw_key(s: Seq<char>) -> Seq<char>
    recommends
        s.len() >= 2,
{
    s.subrange(0, key_len(s))
}

/// The quality token of a name: everything after the key substring.
pub open spec fn quality_token(s: Seq<char>) -> Seq<char>
    recommends
        s.len() >= 2,
{
    s.subrange(key_len(s), s.len() as int)
}

/// Splits a name into its key substring and accidental.
///
/// Succeeds exactly on inputs of at least 4 characters whose first character
/// is a key letter; the quality token is not yet validated here.
pub fn parse_key_acc(input: &str) -> (r: Result<(String, Accidentals), ParseError>)
    ensures
        match r {
            Ok((key, acc)) => {
                &&& input@.len() >= 4
                &&& is_key_letter(input@[0])
                &&& key@ == raw_key(input@)
                &&& acc == acc_of(input@)
                &&& key_wf(key@)
            },
            Err(e) => match e {
                ParseError::InputTooShort(s) => input@.len() < 4 && s@ == input@,
                ParseError::InvalidKey(s) => input@.len() >= 4 && !is_key_letter(input@[0])
                    && s@ == raw_key(input@),
                _ => false,
            },
        },
{
    if input.unicode_len() < 4 {
        return Err(ParseError::InputTooShort(String::from_str(input)));
    }
    let c1 = input.get_char(1);
    let accidental = if c1 == '#' {
        Accidentals::Sharp
    } else if c1 == 'b' {
        Accidentals::Flat
    } else {
        Accidentals::Natural
    };
    let key_chars: usize = match accidental {
        Accidentals::Sharp | Accidentals::Flat => 2,
        Accidentals::Natural => 1,
    };
    let key = String::from_str(input.substring_char(0, key_chars));
    let c0 = input.get_char(0);
    if c0 == 'C' || c0 == 'D' || c0 == 'E' || c0 == 'F' || c0 == 'G' || c0 == 'A' || c0 == 'B' {
        Ok((key, accidental))
    } else {
        Err(ParseError::InvalidKey(key))
    }
}

/// Enharmonic rewriting of the scale keys absent from the chromatic
/// reference: Cb becomes B, Fb becomes E, E# becomes F, B# becomes C.  All
/// other keys pass through unchanged.
pub open spec fn normalize_key(key: Seq<char>) -> Seq<char> {
    if key == seq!['C', 'b'] {
        seq!['B']
    } else if key == seq!['F', 'b'] {
        seq!['E']
    } else if key == seq!['E', '#'] {
        seq!['F']
    } else if key == seq!['B', '#'] {
        seq!['C']
    } else {
        key
    }
}

/// Rewrites the four enharmonic respellings to their single-letter
/// equivalents; all other keys are returned unchanged.
pub fn normalize_key_exec(key: String) -> (r: String)
    requires
        key_wf(key@),
    ensures
        r@ == normalize_key(key@),
{
    proof {
        reveal_strlit("B");
        reveal_strlit("E");
        reveal_strlit("F");
        reveal_strlit("C");
    }
    if key.as_str().unicode_len() == 2 {
        let c0 = key.as_str().get_char(0);
        let c1 = key.as_str().get_char(1);
        if c0 == 'C' && c1 == 'b' {
            assert(key@ =~= seq!['C', 'b']);
            String::from_str("B")
        } else if c0 == 'F' && c1 == 'b' {
            assert(key@ =~= seq!['F', 'b']);
            String::from_str("E")
        } else if c0 == 'E' && c1 == '#' {
            assert(key@ =~= seq!['E', '#']);
            String::from_str("F")
        } else if c0 == 'B' && c1 == '#' {
            assert(key@ =~= seq!['B', '#']);
            String::from_str("C")
        } else {
            key
        }
    } else {
        key
    }
}

/// Normalization rewrites a well-formed key to a well-formed key of the same
/// pitch class, and the result is canonical in the reference spelling of any
/// accidental that agrees with the key's own marker.
pub proof fn lemma_normalized_key_canonical(key: Seq<char>, acc: Accidentals)
    requires
        key_wf(key),
        key.len() == 2 ==> (key[1] == '#' && !flats_used(acc)) || (key[1] == 'b' && flats_used(
            acc,
        )),
    ensures
        key_wf(normalize_key(key)),
        key_pc(normalize_key(key)) == key_pc(key),
        key_canonical(normalize_key(key), acc),
{
    let n = normalize_key(key);
    if key.len() == 2 {
        if key == seq!['C', 'b'] || key == seq!['F', 'b'] || key == seq!['E', '#'] || key
            == seq!['B', '#'] {
            assert(key_wf(n));
            assert(key_pc(n) == key_pc(key));
            assert(note_name(flats_used(acc), key_pc(n)) =~= n);
        } else {
            assert(n == key);
            let c = key[0];
            if c == 'C' && key[1] == 'b' {
                assert(key =~= seq!['C', 'b']);
            } else if c == 'F' && key[1] == 'b' {
                assert(key =~= seq!['F', 'b']);
            } else if c == 'E' && key[1] == '#' {
                assert(key =~= seq!['E', '#']);
            } else if c == 'B' && key[1] == '#' {
                assert(key =~= seq!['B', '#']);
            } else if c == 'C' {
                assert(note_name(flats_used(acc), key_pc(key)) =~= key);
            } else if c == 'D' {
                assert(note_name(flats_used(acc), key_pc(key)) =~= key);
            } else if c == 'E' {
                assert(note_name(flats_used(acc), key_pc(key)) =~= key);
            } else if c == 'F' {
                assert(note_name(flats_used(acc), key_pc(key)) =~= key);
            } else if c == 'G' {
                assert(note_name(flats_used(acc), key_pc(key)) =~= key);
            } else if c == 'A' {
                assert(note_name(flats_used(acc), key_pc(key)) =~= key);
            } else {
                assert(note_name(flats_used(acc), key_pc(key)) =~= key);
            }
        }
    } else {
        assert(n == key);
        assert(note_name(flats_used(acc), letter_pc(key[0])) =~= key);
    }
}

} // verus!
