//! The 12-tone chromatic reference: pitch classes, their sharp and flat
//! spellings, and the mapping from a key name to its pitch class.

use vstd::prelude::*;

verus! {

/// How the root of a scale or chord is spelled, and hence which of the two
/// chromatic reference spellings is used for all note lookups on that entity.
#[derive(Clone, Copy, Debug, PartialEq, Eq, Structural)]
pub enum Accidentals {
    Sharp,
    Flat,
    Natural,
}

/// A flat accidental selects the flat-spelling reference; sharp and natural
/// accidentals select the sharp-spelling reference.
pub open spec fn flats_used(acc: Accidentals) -> bool {
    acc is Flat
}

/// The seven letters that may begin a key name.
pub open spec fn is_key_letter(c: char) -> bool {
    c == 'C' || c == 'D' || c == 'E' || c == 'F' || c == 'G' || c == 'A' || c == 'B'
}

/// Pitch class of a bare letter, with C at position 0 of the chromatic
/// reference.
pub open spec fn letter_pc(c: char) -> int {
    if c == 'C' {
        0
    } else if c == 'D' {
        2
    } else if c == 'E' {
        4
    } else if c == 'F' {
        5
    } else if c == 'G' {
        7
    } else if c == 'A' {
        9
    } else {
        11
    }
}

/// A well-formed key name: a letter, optionally followed by `#` or `b`.
pub open spec fn key_wf(key: Seq<char>) -> bool {
    &&& (key.len() == 1 || (key.len() == 2 && (key[1] == '#' || key[1] == 'b')))
    &&& is_key_letter(key[0])
}

/// Pitch class denoted by a key name: the letter's position, raised a
/// semitone by `#` or lowered one by `b`, modulo 12.
pub open spec fn key_pc(key: Seq<char>) -> int {
    if key.len() == 2 && key[1] == '#' {
        (letter_pc(key[0]) + 1) % 12
    } else if key.len() == 2 && key[1] == 'b' {
        (letter_pc(key[0]) + 11) % 12
    } else {
        letter_pc(key[0])
    }
}

/// Sharp spelling of each pitch class.
pub open spec fn sharp_name(pc: int) -> Seq<char> {
    if pc == 0 {
        seq!['C']
    } else if pc == 1 {
        seq!['C', '#']
    } else if pc == 2 {
        seq!['D']
    } else if pc == 3 {
        seq!['D', '#']
    } else if pc == 4 {
        seq!['E']
    } else if pc == 5 {
        seq!['F']
    } else if pc == 6 {
        seq!['F', '#']
    } else if pc == 7 {
        seq!['G']
    } else if pc == 8 {
        seq!['G', '#']
    } else if pc == 9 {
        seq!['A']
    } else if pc == 10 {
        seq!['A', '#']
    } else {
        seq!['B']
    }
}

/// Flat spelling of each pitch class.
pub open spec fn flat_name(pc: int) -> Seq<char> {
    if pc == 0 {
        seq!['C']
    } else if pc == 1 {
        seq!['D', 'b']
    } else if pc == 2 {
        seq!['D']
    } else if pc == 3 {
        seq!['E', 'b']
    } else if pc == 4 {
        seq!['E']
    } else if pc == 5 {
        seq!['F']
    } else if pc == 6 {
        seq!['G', 'b']
    } else if pc == 7 {
        seq!['G']
    } else if pc == 8 {
        seq!['A', 'b']
    } else if pc == 9 {
        seq!['A']
    } else if pc == 10 {
        seq!['B', 'b']
    } else {
        seq!['B']
    }
}

/// Canonical name of a pitch class in the selected reference spelling.
pub open spec fn note_name(flats: bool, pc: int) -> Seq<char> {
    if flats {
        flat_name(pc)
    } else {
        sharp_name(pc)
    }
}

/// A key name is canonical for an accidental when it appears verbatim in the
/// reference spelling that the accidental selects.  The enharmonic
/// respellings Cb, Fb, E# and B# are exactly the well-formed names that are
/// canonical for no accidental.
pub open spec fn key_canonical(key: Seq<char>, acc: Accidentals) -> bool {
    note_name(flats_used(acc), key_pc(key)) == key
}

/// Every reference entry is itself a well-formed key name denoting its own
/// position.  In particular distinct pitch classes have distinct names
/// within one reference spelling.
pub proof fn lemma_note_name_wf(flats: bool, pc: int)
    requires
        0 <= pc < 12,
    ensures
        key_wf(note_name(flats, pc)),
        key_pc(note_name(flats, pc)) == pc,
{
}

/// Bare letters are in the range of both reference spellings.
pub proof fn lemma_key_pc_bound(key: Seq<char>)
    requires
        key_wf(key),
    ensures
        0 <= key_pc(key) < 12,
{
}

/// Pitch class of a key letter as a machine integer.
pub fn key_letter_pc(c: char) -> (p: u8)
    requires
        is_key_letter(c),
    ensures
        p == letter_pc(c),
{
    if c == 'C' {
        0
    } else if c == 'D' {
        2
    } else if c == 'E' {
        4
    } else if c == 'F' {
        5
    } else if c == 'G' {
        7
    } else if c == 'A' {
        9
    } else {
        11
    }
}

/// Pitch class denoted by a well-formed key name.
pub fn pc_of_key(key: &str) -> (p: u8)
    requires
        key_wf(key@),
    ensures
        p == key_pc(key@),
        p < 12,
{
    let c0 = key.get_char(0);
    let base = key_letter_pc(c0);
    if key.unicode_len() == 2 {
        let c1 = key.get_char(1);
        if c1 == '#' {
            (base + 1) % 12
        } else {
            (base + 11) % 12
        }
    } else {
        base
    }
}

/// Canonical name of a pitch class, as a string of the reference spelling
/// selected by `flats`.
pub fn note_str(flats: bool, pc: u8) -> (r: &'static str)
    requires
        pc < 12,
    ensures
        r@ == note_name(flats, pc as int),
{
    proof {
        reveal_strlit("C");
        reveal_strlit("C#");
        reveal_strlit("D");
        reveal_strlit("Db");
        reveal_strlit("D#");
        reveal_strlit("E");
        reveal_strlit("Eb");
        reveal_strlit("F");
        reveal_strlit("F#");
        reveal_strlit("G");
        reveal_strlit("Gb");
        reveal_strlit("G#");
        reveal_strlit("A");
        reveal_strlit("Ab");
        reveal_strlit("A#");
        reveal_strlit("B");
        reveal_strlit("Bb");
    }
    if flats {
        if pc == 0 {
            "C"
        } else if pc == 1 {
            "Db"
        } else if pc == 2 {
            "D"
        } else if pc == 3 {
            "Eb"
        } else if pc == 4 {
            "E"
        } else if pc == 5 {
            "F"
        } else if pc == 6 {
            "Gb"
        } else if pc == 7 {
            "G"
        } else if pc == 8 {
            "Ab"
        } else if pc == 9 {
            "A"
        } else if pc == 10 {
            "Bb"
        } else {
            "B"
        }
    } else {
        if pc == 0 {
            "C"
        } else if pc == 1 {
            "C#"
        } else if pc == 2 {
            "D"
        } else if pc == 3 {
            "D#"
        } else if pc == 4 {
            "E"
        } else if pc == 5 {
            "F"
        } else if pc == 6 {
            "F#"
        } else if pc == 7 {
            "G"
        } else if pc == 8 {
            "G#"
        } else if pc == 9 {
            "A"
        } else if pc == 10 {
            "A#"
        } else {
            "B"
        }
    }
}

} // verus!
