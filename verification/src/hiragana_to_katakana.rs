//! Conversion of hiragana to katakana.
//!
//! The katakana block repeats the hiragana block at a fixed distance, so a
//! hiragana letter becomes katakana by adding that distance to its code
//! point. Every other character stays as it is.

use crate::classify::{
    between, char_is_hiragana, hiragana_char, hiragana_text, katakana_char, katakana_text,
};
use crate::constants::{
    HIRAGANA_END, HIRAGANA_START, KANA_SLASH_DOT, KATAKANA_START, PROLONGED_SOUND_MARK,
};
use vstd::prelude::*;

verus! {

/// The katakana for `c` where `c` is a hiragana letter, else `c` itself. The
/// prolonged sound mark and the middle dot stay as they are.
pub open spec fn katakana_of(c: char) -> char {
    if c as u32 == PROLONGED_SOUND_MARK || c as u32 == KANA_SLASH_DOT {
        c
    } else if hiragana_char(c) {
        (c as u32 + KATAKANA_START - HIRAGANA_START) as char
    } else {
        c
    }
}

/// `s` with each character replaced by its katakana.
pub open spec fn to_katakana(s: Seq<char>) -> Seq<char> {
    Seq::new(s.len(), |i: int| katakana_of(s[i]))
}

/// Converts the hiragana in `input` to katakana and keeps everything else.
/// The result has one character for each character of `input`.
pub fn hiragana_to_katakana(input: &str) -> (kata: String)
    ensures
        kata@ == to_katakana(input@),
        kata@.len() == input@.len(),
        forall|i: int| 0 <= i < input@.len() ==> kata@[i] == katakana_of(input@[i]),
{
    let mut kata = String::new();

    for c in it: input.chars()
        invariant
            it.seq() == input@,
            kata@ == to_katakana(input@.take(it.index())),
    {
        let ghost after = input@.take(it.index() + 1);
        if c as u32 == PROLONGED_SOUND_MARK || c as u32 == KANA_SLASH_DOT {
            kata.push(c);
        } else if char_is_hiragana(c) {
            let code: u32 = c as u32 + KATAKANA_START - HIRAGANA_START;
            if let Some(kata_char) = char::from_u32(code) {
                kata.push(kata_char);
            }
        } else {
            kata.push(c);
        }
        assert(kata@ =~= to_katakana(after));
    }
    assert(input@.take(input@.len() as int) =~= input@);
    kata
}

/// Hiragana is converted to katakana: the result of the conversion of a
/// hiragana text is a katakana text.
pub proof fn lemma_hiragana_becomes_katakana(s: Seq<char>)
    requires
        hiragana_text(s),
    ensures
        katakana_text(to_katakana(s)),
{
    let kata = to_katakana(s);
    assert forall|i: int| 0 <= i < kata.len() implies katakana_char(#[trigger] kata[i]) by {
        assert(hiragana_char(s[i]));
    }
}

/// The conversion leaves no hiragana letter behind, whatever it is given.
pub proof fn lemma_no_hiragana_letter_left(s: Seq<char>)
    ensures
        forall|i: int|
            0 <= i < s.len() ==> !between(
                #[trigger] to_katakana(s)[i],
                HIRAGANA_START,
                HIRAGANA_END,
            ),
{
}

/// A text without hiragana letters is converted to itself.
pub proof fn lemma_without_hiragana_unchanged(s: Seq<char>)
    requires
        forall|i: int| 0 <= i < s.len() ==> !between(#[trigger] s[i], HIRAGANA_START, HIRAGANA_END),
    ensures
        to_katakana(s) == s,
{
    assert(to_katakana(s) =~= s);
}

} // verus!
