//! Hiragana survives the way to katakana and back.
//!
//! The way to katakana loses which letters were katakana before, and the way
//! back resolves the prolonged sound marks behind letters. A text without
//! either comes back as it was.

use crate::classify::hiragana_char;
use crate::constants::{KANA_SLASH_DOT, PROLONGED_SOUND_MARK};
use crate::hiragana_to_katakana::{katakana_of, to_katakana};
use crate::katakana_to_hiragana::{hiragana_of, katakana_letter, to_hiragana};
use vstd::prelude::*;

verus! {

/// A hiragana letter is the hiragana of its katakana.
pub proof fn lemma_letter_round_trip(c: char)
    requires
        hiragana_char(c),
        c as u32 != PROLONGED_SOUND_MARK,
    ensures
        katakana_letter(katakana_of(c)),
        hiragana_of(katakana_of(c)) == c,
{
}

/// A text without katakana letters and without the prolonged sound mark is
/// converted to katakana and back to itself.
pub proof fn lemma_round_trip_of_any_text(s: Seq<char>)
    requires
        forall|i: int|
            0 <= i < s.len() ==> !katakana_letter(#[trigger] s[i]) && (s[i] as u32)
                != PROLONGED_SOUND_MARK,
    ensures
        to_hiragana(to_katakana(s)) == s,
    decreases s.len(),
{
    let kata = to_katakana(s);
    if s.len() == 0 {
        assert(kata =~= Seq::<char>::empty());
        assert(to_hiragana(kata) =~= s);
    } else {
        let front = s.drop_last();
        lemma_round_trip_of_any_text(front);
        assert(kata.drop_last() =~= to_katakana(front));
        assert(kata.last() == katakana_of(s.last()));
        if hiragana_char(s.last()) {
            lemma_letter_round_trip(s.last());
        }
        assert(to_hiragana(kata) =~= front.push(s.last()));
        assert(front.push(s.last()) =~= s);
    }
}

/// A text of hiragana letters, without the prolonged sound mark and the
/// middle dot, is converted to katakana and back to itself.
pub proof fn lemma_round_trip(s: Seq<char>)
    requires
        forall|i: int| 0 <= i < s.len() ==> hiragana_char(#[trigger] s[i]),
        forall|i: int|
            0 <= i < s.len() ==> (#[trigger] s[i]) as u32 != PROLONGED_SOUND_MARK && s[i] as u32
                != KANA_SLASH_DOT,
    ensures
        to_hiragana(to_katakana(s)) == s,
{
    lemma_round_trip_of_any_text(s);
}

} // verus!
