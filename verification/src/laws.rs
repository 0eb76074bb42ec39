//! The guarantees that hold across the library's functions: a scale's seven
//! notes are distinct and rooted at its key, and a scale and its relative
//! share one pitch-class set, with the second relative restoring the
//! original labeling.

use vstd::prelude::*;

use vstd::arithmetic::div_mod::lemma_add_mod_noop;
use vstd::arithmetic::div_mod::lemma_mod_add_multiples_vanish;
use vstd::arithmetic::div_mod::lemma_small_mod;

use crate::notes::flats_used;
use crate::notes::key_canonical;
use crate::notes::key_pc;
use crate::notes::lemma_key_pc_bound;
use crate::notes::lemma_note_name_wf;
use crate::notes::note_name;
use crate::scale::degree_offset;
use crate::scale::Scale;
use crate::scale::ScaleTypes;

verus! {

/// Adding within one octave commutes with reducing to a pitch class.
proof fn lemma_pc_add(x: int, c: int)
    requires
        0 <= c < 12,
    ensures
        (x % 12 + c) % 12 == (x + c) % 12,
{
    lemma_add_mod_noop(x, c, 12);
    lemma_small_mod(c as nat, 12);
}

/// A whole octave vanishes under pitch-class reduction.
proof fn lemma_pc_wrap(x: int)
    ensures
        (x + 12) % 12 == x % 12,
{
    lemma_mod_add_multiples_vanish(x, 12);
}

/// A well-formed scale has exactly seven notes, pairwise distinct, and the
/// first is the scale's own key: degree 0 sits at the key's pitch class, so
/// the note sequence that [`Scale::to_notes`] returns starts with the
/// (normalized) key's canonical name.
pub proof fn lemma_scale_notes_distinct(s: Scale)
    requires
        s.wf(),
    ensures
        forall|i: int, j: int|
            0 <= i < 7 && 0 <= j < 7 && i != j ==> s.note_at(i) != s.note_at(j),
        s.degree_pc(0) == key_pc(s.key@),
        s.note_at(0) == s.key@,
{
    lemma_key_pc_bound(s.key@);
    assert forall|i: int, j: int|
        0 <= i < 7 && 0 <= j < 7 && i != j implies s.note_at(i) != s.note_at(j) by {
        assert(degree_offset(s.scale_type, i) != degree_offset(s.scale_type, j));
        assert(s.degree_pc(i) != s.degree_pc(j));
        lemma_note_name_wf(flats_used(s.accidental), s.degree_pc(i));
        lemma_note_name_wf(flats_used(s.accidental), s.degree_pc(j));
    }
}

/// Scale degree of the original scale that carries the `j`-th degree of its
/// relative scale: major degree i and relative-minor degree j name the same
/// pitch class when they pair up this way, and likewise for minor.
spec fn relative_degree(quality: ScaleTypes, j: int) -> int
    recommends
        0 <= j < 7,
{
    match quality {
        ScaleTypes::Maj => seq![5int, 6, 0, 1, 2, 3, 4][j],
        ScaleTypes::Min => seq![2int, 3, 4, 5, 6, 0, 1][j],
    }
}

/// Inverse of [`relative_degree`]: the relative scale's degree that carries
/// the `i`-th degree of the original.
spec fn relative_degree_back(quality: ScaleTypes, i: int) -> int
    recommends
        0 <= i < 7,
{
    match quality {
        ScaleTypes::Maj => seq![2int, 3, 4, 5, 6, 0, 1][i],
        ScaleTypes::Min => seq![5int, 6, 0, 1, 2, 3, 4][i],
    }
}

/// A scale and its relative scale contain the same seven pitch classes;
/// only the tonic and the labeling differ.
pub proof fn lemma_relative_same_pitch_classes(s: Scale, r: Scale)
    requires
        s.wf(),
        s.is_relative_of(r),
    ensures
        r.pitch_classes() == s.pitch_classes(),
{
    let f = flats_used(s.accidental);
    let sr = s.root_pc();
    let shift: int = match s.scale_type {
        ScaleTypes::Maj => 9,
        ScaleTypes::Min => 3,
    };
    lemma_key_pc_bound(s.key@);
    lemma_note_name_wf(f, (sr + shift) % 12);
    assert(r.root_pc() == (sr + shift) % 12);
    assert forall|j: int| 0 <= j < 7 implies s.pitch_classes().contains(#[trigger] r.degree_pc(j)) by {
        let c = degree_offset(r.scale_type, j);
        assert(0 <= c < 12);
        lemma_pc_add(sr + shift, c);
        assert(r.degree_pc(j) == (sr + shift + c) % 12);
        let i: int = relative_degree(s.scale_type, j);
        let ci = degree_offset(s.scale_type, i);
        assert(shift + c == ci || shift + c == ci + 12);
        if shift + c == ci + 12 {
            lemma_pc_wrap(sr + ci);
        }
        assert(s.degree_pc(i) == (sr + shift + c) % 12);
    }
    assert forall|i: int| 0 <= i < 7 implies r.pitch_classes().contains(#[trigger] s.degree_pc(i)) by {
        let ci = degree_offset(s.scale_type, i);
        let j: int = relative_degree_back(s.scale_type, i);
        let c = degree_offset(r.scale_type, j);
        assert(0 <= c < 12);
        lemma_pc_add(sr + shift, c);
        assert(r.degree_pc(j) == (sr + shift + c) % 12);
        assert(shift + c == ci || shift + c == ci + 12);
        if shift + c == ci + 12 {
            lemma_pc_wrap(sr + ci);
        }
        assert(r.degree_pc(j) == s.degree_pc(i));
    }
    assert forall|p: int| #[trigger] r.pitch_classes().contains(p) implies s.pitch_classes()
        .contains(p) by {
        let j = choose|j: int| 0 <= j < 7 && p == r.degree_pc(j);
        assert(s.pitch_classes().contains(r.degree_pc(j)));
    }
    assert forall|p: int| #[trigger] s.pitch_classes().contains(p) implies r.pitch_classes()
        .contains(p) by {
        let i = choose|i: int| 0 <= i < 7 && p == s.degree_pc(i);
        assert(r.pitch_classes().contains(s.degree_pc(i)));
    }
    assert(r.pitch_classes() =~= s.pitch_classes());
}

/// Taking the relative of the relative returns to the original scale:
/// tonic, accidental and quality all come back, for both directions of the
/// major/minor pairing.
pub proof fn lemma_relative_relative_restores(s: Scale, r: Scale, rr: Scale)
    requires
        s.wf(),
        s.is_relative_of(r),
        r.is_relative_of(rr),
    ensures
        rr.key@ == s.key@,
        rr.accidental == s.accidental,
        rr.scale_type == s.scale_type,
{
    let f = flats_used(s.accidental);
    let sr = s.root_pc();
    let shift: int = match s.scale_type {
        ScaleTypes::Maj => 9,
        ScaleTypes::Min => 3,
    };
    lemma_key_pc_bound(s.key@);
    lemma_note_name_wf(f, (sr + shift) % 12);
    assert(r.root_pc() == (sr + shift) % 12);
    lemma_pc_add(sr + shift, 12 - shift);
    lemma_pc_wrap(sr);
    lemma_small_mod(sr as nat, 12);
    assert((r.root_pc() + (12 - shift)) % 12 == sr);
    assert(rr.key@ == note_name(f, sr));
    assert(note_name(f, key_pc(s.key@)) == s.key@) by {
        assert(key_canonical(s.key@, s.accidental));
    }
}

} // verus!
