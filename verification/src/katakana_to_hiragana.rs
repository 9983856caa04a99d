//! Conversion of katakana to hiragana.
//!
//! A katakana letter becomes hiragana by taking the distance between the two
//! blocks off its code point. The prolonged sound mark has no hiragana of its
//! own: behind a converted letter it becomes the hiragana that lengthens the
//! vowel of that letter. The conversion therefore reads the text from left to
//! right and remembers the hiragana of the last letter it converted.

use crate::classify::{between, char_is_katakana, hiragana_char, hiragana_text, katakana_char};
use crate::constants::{HIRAGANA_START, KANA_SLASH_DOT, KATAKANA_START, PROLONGED_SOUND_MARK};
use crate::vowels::{lengthen, lengthened};
use vstd::prelude::*;

verus! {

/// `c` is a katakana letter: katakana, but neither the middle dot nor the
/// prolonged sound mark.
pub open spec fn katakana_letter(c: char) -> bool {
    katakana_char(c) && c as u32 != KANA_SLASH_DOT && c as u32 != PROLONGED_SOUND_MARK
}

/// The hiragana for the katakana letter `c`.
pub open spec fn hiragana_of(c: char) -> char {
    (c as u32 + HIRAGANA_START - KATAKANA_START) as char
}

/// What the conversion appends for the character `c` at position `index`,
/// when `previous_kana` is the hiragana it remembers. In order:
/// - the middle dot is kept;
/// - a prolonged sound mark that begins the text is kept;
/// - a prolonged sound mark behind a remembered hiragana becomes the long
///   form of its vowel, or nothing where the tables do not know it;
/// - a katakana letter becomes its hiragana;
/// - any other character is kept.
pub open spec fn appended(previous_kana: Option<char>, index: int, c: char) -> Seq<char> {
    let is_long_dash = c as u32 == PROLONGED_SOUND_MARK;
    if c as u32 == KANA_SLASH_DOT || (is_long_dash && index < 1) {
        seq![c]
    } else if previous_kana is Some && is_long_dash && index > 0 {
        match lengthened(previous_kana->0) {
            Some(vowel) => seq![vowel],
            None => Seq::empty(),
        }
    } else if !is_long_dash && katakana_char(c) {
        seq![hiragana_of(c)]
    } else {
        seq![c]
    }
}

/// What the conversion remembers behind the character `c` at position
/// `index`, when it remembered `previous_kana` before. The middle dot and the
/// prolonged sound mark that is resolved or begins the text leave it as it
/// was; a katakana letter sets it to the hiragana of that letter; any other
/// character clears it.
pub open spec fn remembered(previous_kana: Option<char>, index: int, c: char) -> Option<char> {
    let is_long_dash = c as u32 == PROLONGED_SOUND_MARK;
    if c as u32 == KANA_SLASH_DOT || (is_long_dash && index < 1) {
        previous_kana
    } else if previous_kana is Some && is_long_dash && index > 0 {
        previous_kana
    } else if !is_long_dash && katakana_char(c) {
        Some(hiragana_of(c))
    } else {
        None
    }
}

/// What the conversion remembers when it has read all of `s`.
pub open spec fn previous_kana_after(s: Seq<char>) -> Option<char>
    decreases s.len(),
{
    if s.len() == 0 {
        None
    } else {
        remembered(previous_kana_after(s.drop_last()), s.len() - 1, s.last())
    }
}

/// `s` with its katakana converted to hiragana.
pub open spec fn to_hiragana(s: Seq<char>) -> Seq<char>
    decreases s.len(),
{
    if s.len() == 0 {
        Seq::empty()
    } else {
        to_hiragana(s.drop_last()) + appended(
            previous_kana_after(s.drop_last()),
            s.len() - 1,
            s.last(),
        )
    }
}

/// Converts the katakana in `input` to hiragana, resolves each prolonged
/// sound mark behind a converted letter, and keeps everything else.
pub fn katakana_to_hiragana(input: &str) -> (hira: String)
    ensures
        hira@ == to_hiragana(input@),
        hira@.len() <= input@.len(),
{
    let mut hira = String::new();
    let mut previous_kana: Option<char> = None;
    let mut at_start = true;

    for c in it: input.chars()
        invariant
            it.seq() == input@,
            at_start == (it.index() == 0),
            hira@ == to_hiragana(input@.take(it.index())),
            previous_kana == previous_kana_after(input@.take(it.index())),
    {
        proof {
            let read = input@.take(it.index() + 1);
            assert(read.drop_last() =~= input@.take(it.index()));
            assert(read.last() == c);
        }
        let is_long_dash = c as u32 == PROLONGED_SOUND_MARK;

        if c as u32 == KANA_SLASH_DOT || (is_long_dash && at_start) {
            hira.push(c);
        } else if previous_kana.is_some() && is_long_dash {
            if let Some(vowel) = lengthen(previous_kana.unwrap()) {
                hira.push(vowel);
            }
        } else if !is_long_dash && char_is_katakana(c) {
            let code: u32 = c as u32 + HIRAGANA_START - KATAKANA_START;
            if let Some(hira_char) = char::from_u32(code) {
                hira.push(hira_char);
                previous_kana = Some(hira_char);
            }
        } else {
            hira.push(c);
            previous_kana = None;
        }
        at_start = false;
    }
    proof {
        assert(input@.take(input@.len() as int) =~= input@);
        lemma_never_longer(input@);
    }
    hira
}

/// Where a text begins nothing is remembered, so the position of a
/// character decides nothing that the remembered hiragana does not decide
/// as well: a step behind `s` is the step at any position but the first.
pub proof fn lemma_position_is_immaterial(s: Seq<char>, c: char)
    ensures
        appended(previous_kana_after(s), s.len() as int, c) == appended(
            previous_kana_after(s),
            1,
            c,
        ),
        remembered(previous_kana_after(s), s.len() as int, c) == remembered(
            previous_kana_after(s),
            1,
            c,
        ),
{
}

/// The conversion appends at most one character for each one it reads.
pub proof fn lemma_never_longer(s: Seq<char>)
    ensures
        to_hiragana(s).len() <= s.len(),
    decreases s.len(),
{
    if s.len() > 0 {
        lemma_never_longer(s.drop_last());
    }
}

/// A character that is not katakana passes through unchanged, whatever
/// stands before it, and clears what the conversion remembers: a prolonged
/// sound mark right behind it is kept as it is.
pub proof fn lemma_other_char_passes(s: Seq<char>, c: char)
    requires
        !katakana_char(c),
    ensures
        to_hiragana(s.push(c)) == to_hiragana(s).push(c),
        previous_kana_after(s.push(c)) is None,
        to_hiragana(s.push(c).push('ー')) == to_hiragana(s).push(c).push('ー'),
{
    let read = s.push(c);
    assert(read.drop_last() =~= s);
    assert(to_hiragana(read) =~= to_hiragana(s).push(c));
    let longer = read.push('ー');
    assert(longer.drop_last() =~= read);
    assert(to_hiragana(longer) =~= to_hiragana(read).push('ー'));
}

/// A text without katakana is converted to itself.
pub proof fn lemma_without_katakana_unchanged(s: Seq<char>)
    requires
        forall|i: int| 0 <= i < s.len() ==> !katakana_char(#[trigger] s[i]),
    ensures
        to_hiragana(s) == s,
    decreases s.len(),
{
    if s.len() > 0 {
        lemma_without_katakana_unchanged(s.drop_last());
        assert(s.drop_last().push(s.last()) =~= s);
        lemma_other_char_passes(s.drop_last(), s.last());
    }
}

/// The middle dot is kept wherever it stands, and neither it nor the
/// prolonged sound mark changes what the conversion remembers.
pub proof fn lemma_dot_and_mark_keep_memory(s: Seq<char>)
    ensures
        to_hiragana(s.push('・')) == to_hiragana(s).push('・'),
        previous_kana_after(s.push('・')) == previous_kana_after(s),
        previous_kana_after(s.push('ー')) == previous_kana_after(s),
{
    assert(s.push('・').drop_last() =~= s);
    assert(s.push('ー').drop_last() =~= s);
    assert(to_hiragana(s.push('・')) =~= to_hiragana(s).push('・'));
}

/// A katakana letter becomes its hiragana, whatever stands before it, and
/// is what the conversion then remembers.
pub proof fn lemma_letter_converted(s: Seq<char>, c: char)
    requires
        katakana_letter(c),
    ensures
        to_hiragana(s.push(c)) == to_hiragana(s).push(hiragana_of(c)),
        previous_kana_after(s.push(c)) == Some(hiragana_of(c)),
{
    let read = s.push(c);
    assert(read.drop_last() =~= s);
    assert(to_hiragana(read) =~= to_hiragana(s).push(hiragana_of(c)));
}

/// A prolonged sound mark right behind a katakana letter becomes the long
/// form of the vowel of that letter, or nothing where the tables do not know
/// the letter.
pub proof fn lemma_long_vowel_resolved(s: Seq<char>, c: char)
    requires
        katakana_letter(c),
    ensures
        to_hiragana(s.push(c).push('ー')) == to_hiragana(s).push(hiragana_of(c)) + (
        match lengthened(hiragana_of(c)) {
            Some(vowel) => seq![vowel],
            None => Seq::empty(),
        }),
{
    lemma_letter_converted(s, c);
    let read = s.push(c).push('ー');
    assert(read.drop_last() =~= s.push(c));
}

/// Katakana is converted to hiragana: where a text holds nothing but
/// prolonged sound marks and the katakana letters from small a to small ke,
/// which are those with a hiragana letter of their own, the result of its
/// conversion is a hiragana text.
pub proof fn lemma_katakana_becomes_hiragana(s: Seq<char>)
    requires
        forall|i: int|
            0 <= i < s.len() ==> (#[trigger] s[i]) as u32 == PROLONGED_SOUND_MARK || between(
                s[i],
                KATAKANA_START,
                0x30F6,
            ),
    ensures
        hiragana_text(to_hiragana(s)),
    decreases s.len(),
{
    if s.len() > 0 {
        let front = s.drop_last();
        lemma_katakana_becomes_hiragana(front);
        let tail = appended(previous_kana_after(front), s.len() - 1, s.last());
        assert(forall|i: int| 0 <= i < tail.len() ==> hiragana_char(#[trigger] tail[i]));
        let hira = to_hiragana(s);
        assert forall|i: int| 0 <= i < hira.len() implies hiragana_char(#[trigger] hira[i]) by {
            if i < to_hiragana(front).len() {
                assert(hira[i] == to_hiragana(front)[i]);
            } else {
                assert(hira[i] == tail[i - to_hiragana(front).len()]);
            }
        }
    }
}

/// The conversion leaves no katakana letter behind, whatever it is given.
pub proof fn lemma_no_katakana_letter_left(s: Seq<char>)
    ensures
        forall|i: int|
            0 <= i < to_hiragana(s).len() ==> !katakana_letter(#[trigger] to_hiragana(s)[i]),
    decreases s.len(),
{
    if s.len() > 0 {
        let front = s.drop_last();
        lemma_no_katakana_letter_left(front);
        let tail = appended(previous_kana_after(front), s.len() - 1, s.last());
        assert(forall|i: int| 0 <= i < tail.len() ==> !katakana_letter(#[trigger] tail[i]));
        let hira = to_hiragana(s);
        assert forall|i: int| 0 <= i < hira.len() implies !katakana_letter(#[trigger] hira[i]) by {
            if i < to_hiragana(front).len() {
                assert(hira[i] == to_hiragana(front)[i]);
            } else {
                assert(hira[i] == tail[i - to_hiragana(front).len()]);
            }
        }
    }
}

} // verus!
