//! Pitch contour of an utterance: which letters sound, and how far each one
//! is shifted by the intonation glide.

use vstd::prelude::*;
use vstd::arithmetic::div_mod::{lemma_div_by_multiple, lemma_div_is_ordered};
use vstd::arithmetic::mul::lemma_mul_inequality;
use crate::sprite::{is_ascii_alphabetic, is_ascii_letter};
use crate::text::{ends_with_question, ends_with_question_mark, trim_end, trimmed_end};

verus! {

/// Intonation used for a question spoken at level intonation, in thousandths.
pub const QUESTION_RISE: i32 = 500;

/// Semitones of glide that a full intonation (1000) reaches at the end of an
/// utterance.
pub const GLIDE_SEMITONES: i128 = 3;

/// The ASCII letters of `s`, in order.
pub open spec fn letters_of(s: Seq<char>) -> Seq<char>
    decreases s.len(),
{
    if s.len() == 0 {
        Seq::empty()
    } else if is_ascii_letter(s.last()) {
        letters_of(s.drop_last()).push(s.last())
    } else {
        letters_of(s.drop_last())
    }
}

/// Every character `letters_of` keeps is an ASCII letter.
pub proof fn letters_are_letters(s: Seq<char>)
    ensures
        forall|k: int| 0 <= k < letters_of(s).len() ==> is_ascii_letter(#[trigger] letters_of(s)[k]),
    decreases s.len(),
{
    if s.len() > 0 {
        let rest = letters_of(s.drop_last());
        letters_are_letters(s.drop_last());
        assert forall|k: int| 0 <= k < letters_of(s).len() implies is_ascii_letter(
            #[trigger] letters_of(s)[k],
        ) by {
            if k < rest.len() {
                assert(letters_of(s)[k] == rest[k]);
            }
        }
    }
}

/// `num / den` rounded toward zero, for a positive `den`.
pub open spec fn div_toward_zero(num: int, den: int) -> int {
    if num >= 0 {
        num / den
    } else {
        -((-num) / den)
    }
}

/// Shift of the letter at `index` of `count`, in thousandths of a semitone,
/// under an intonation in thousandths: `intonation * (index / count) * 3`.
pub open spec fn intonation_offset(intonation: int, index: int, count: int) -> int {
    div_toward_zero(intonation * GLIDE_SEMITONES * index, count)
}

/// The intonation an utterance is spoken with: a text whose trimmed form
/// ends with `?` rises by `QUESTION_RISE` when the profile is level.
pub open spec fn effective_intonation(trimmed: Seq<char>, base: int) -> int {
    if ends_with_question(trimmed) && base == 0 {
        QUESTION_RISE as int
    } else {
        base
    }
}

/// The intonation for text whose trailing white space is already removed.
pub fn intonation_for(trimmed: &str, base: i32) -> (r: i32)
    ensures
        r == effective_intonation(trimmed@, base as int),
{
    if base == 0 && ends_with_question_mark(trimmed) {
        QUESTION_RISE
    } else {
        base
    }
}

/// The intonation `text` is spoken with under a profile whose intonation is
/// `base`.
pub fn intonation_of_text(text: &str, base: i32) -> (r: i32)
    ensures
        r == effective_intonation(trimmed_end(text@), base as int),
{
    intonation_for(trim_end(text), base)
}

/// Shift of the letter at `index` of `count` letters.
pub fn compute_intonation_offset(intonation: i32, index: usize, count: usize) -> (r: i64)
    requires
        index <= count,
        count > 0,
    ensures
        r == intonation_offset(intonation as int, index as int, count as int),
        -3 * 2147483648 <= r <= 3 * 2147483647,
{
    let scale: i128 = intonation as i128 * GLIDE_SEMITONES;
    let magnitude: i128 = if scale >= 0 { scale } else { -scale };
    proof {
        lemma_mul_inequality(index as int, count as int, magnitude as int);
        assert(magnitude * index == index * magnitude) by (nonlinear_arith);
        assert(magnitude * count == count * magnitude) by (nonlinear_arith);
        lemma_div_is_ordered(magnitude * index, magnitude * count, count as int);
        lemma_div_by_multiple(magnitude as int, count as int);
        assert(0 <= magnitude * index <= magnitude * 0x1_0000_0000_0000_0000) by (nonlinear_arith)
            requires 0 <= magnitude, 0 <= index < 0x1_0000_0000_0000_0000;
    }
    let product: i128 = magnitude * index as i128;
    let quotient: i128 = product / count as i128;
    if scale >= 0 {
        assert(scale * index == product);
        quotient as i64
    } else {
        assert(scale * index == -product) by (nonlinear_arith)
            requires scale == -magnitude, product == magnitude * index;
        assert(scale * index < 0 || product == 0);
        -(quotient as i64)
    }
}

/// The ASCII letters of `text`, in order.
pub fn letters_in(text: &str) -> (r: Vec<char>)
    ensures
        r@ == letters_of(text@),
{
    let mut letters: Vec<char> = Vec::new();
    for c in it: text.chars()
        invariant
            it.seq() == text@,
            letters@ == letters_of(text@.subrange(0, it.index() as int)),
    {
        assert(text@.subrange(0, it.index() as int + 1).drop_last() =~= text@.subrange(0, it.index() as int));
        if is_ascii_alphabetic(c) {
            letters.push(c);
        }
    }
    assert(text@.subrange(0, text@.len() as int) =~= text@);
    letters
}

/// A question spoken under a level profile rises: when it has two letters
/// or more, its last letter is shifted strictly higher than its first.
pub proof fn question_rises(text: Seq<char>)
    requires
        ends_with_question(trimmed_end(text)),
        letters_of(text).len() >= 2,
    ensures
        ({
            let n = letters_of(text).len() as int;
            let intonation = effective_intonation(trimmed_end(text), 0);
            intonation_offset(intonation, n - 1, n) > intonation_offset(intonation, 0, n)
        }),
{
    let n = letters_of(text).len() as int;
    let rise = QUESTION_RISE as int * GLIDE_SEMITONES * (n - 1);
    assert(rise >= n) by (nonlinear_arith)
        requires
            rise == 500 * 3 * (n - 1),
            n >= 2,
    ;
    lemma_div_is_ordered(n, rise, n);
    lemma_div_by_multiple(1, n);
    assert(QUESTION_RISE as int * GLIDE_SEMITONES * 0 == 0);
}

} // verus!
