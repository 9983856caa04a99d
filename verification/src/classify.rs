//! Which script a character or a text is written in.
//!
//! A character is classified by its code point alone. A text is romaji,
//! Japanese, kana, hiragana, katakana or kanji when every character of it is,
//! so the empty text is all of these. A text is mixed when it holds kana
//! beside romaji.

use crate::constants::{
    HIRAGANA_END, HIRAGANA_START, JAPANESE_RANGES, KANA_RANGES, KANJI_END, KANJI_START,
    KATAKANA_END, KATAKANA_START, PROLONGED_SOUND_MARK, ROMAJI_RANGES,
};
use vstd::prelude::*;

verus! {

/// The code point of `c` is at least `lower` and at most `upper`.
pub open spec fn between(c: char, lower: u32, upper: u32) -> bool {
    lower <= c as u32 <= upper
}

/// The code point of `c` lies in the closed interval `range`.
pub open spec fn in_range(c: char, range: (u32, u32)) -> bool {
    between(c, range.0, range.1)
}

/// The code point of `c` lies in one of `ranges`.
pub open spec fn in_ranges(c: char, ranges: Seq<(u32, u32)>) -> bool {
    exists|i: int| 0 <= i < ranges.len() && in_range(c, #[trigger] ranges[i])
}

/// Every character of `s` lies in one of `ranges`.
pub open spec fn every_in_ranges(s: Seq<char>, ranges: Seq<(u32, u32)>) -> bool {
    forall|i: int| 0 <= i < s.len() ==> in_ranges(#[trigger] s[i], ranges)
}

/// `c` is a Latin character as romaji uses them.
pub open spec fn romaji_char(c: char) -> bool {
    in_ranges(c, ROMAJI_RANGES@)
}

/// `c` may stand in Japanese text.
pub open spec fn japanese_char(c: char) -> bool {
    in_ranges(c, JAPANESE_RANGES@)
}

/// `c` is hiragana or katakana, fullwidth or halfwidth.
pub open spec fn kana_char(c: char) -> bool {
    in_ranges(c, KANA_RANGES@)
}

/// `c` is a hiragana letter or the prolonged sound mark.
pub open spec fn hiragana_char(c: char) -> bool {
    c as u32 == PROLONGED_SOUND_MARK || between(c, HIRAGANA_START, HIRAGANA_END)
}

/// `c` is a katakana letter, the middle dot or the prolonged sound mark.
pub open spec fn katakana_char(c: char) -> bool {
    between(c, KATAKANA_START, KATAKANA_END)
}

/// `c` is a kanji.
pub open spec fn kanji_char(c: char) -> bool {
    between(c, KANJI_START, KANJI_END)
}

/// Every character of `s` is romaji.
pub open spec fn romaji_text(s: Seq<char>) -> bool {
    forall|i: int| 0 <= i < s.len() ==> romaji_char(#[trigger] s[i])
}

/// Every character of `s` may stand in Japanese text.
pub open spec fn japanese_text(s: Seq<char>) -> bool {
    forall|i: int| 0 <= i < s.len() ==> japanese_char(#[trigger] s[i])
}

/// Every character of `s` is kana.
pub open spec fn kana_text(s: Seq<char>) -> bool {
    forall|i: int| 0 <= i < s.len() ==> kana_char(#[trigger] s[i])
}

/// Every character of `s` is hiragana.
pub open spec fn hiragana_text(s: Seq<char>) -> bool {
    forall|i: int| 0 <= i < s.len() ==> hiragana_char(#[trigger] s[i])
}

/// Every character of `s` is katakana.
pub open spec fn katakana_text(s: Seq<char>) -> bool {
    forall|i: int| 0 <= i < s.len() ==> katakana_char(#[trigger] s[i])
}

/// Every character of `s` is a kanji.
pub open spec fn kanji_text(s: Seq<char>) -> bool {
    forall|i: int| 0 <= i < s.len() ==> kanji_char(#[trigger] s[i])
}

/// Some character of `s` is kana.
pub open spec fn has_kana(s: Seq<char>) -> bool {
    exists|i: int| 0 <= i < s.len() && kana_char(#[trigger] s[i])
}

/// Some character of `s` is romaji.
pub open spec fn has_romaji(s: Seq<char>) -> bool {
    exists|i: int| 0 <= i < s.len() && romaji_char(#[trigger] s[i])
}

/// Some character of `s` is a kanji.
pub open spec fn has_kanji(s: Seq<char>) -> bool {
    exists|i: int| 0 <= i < s.len() && kanji_char(#[trigger] s[i])
}

/// `s` holds kana and romaji, and no kanji unless `pass_kanji` lets them pass.
pub open spec fn mixed_text(s: Seq<char>, pass_kanji: bool) -> bool {
    has_kana(s) && has_romaji(s) && (pass_kanji || !has_kanji(s))
}

/// Tests whether the code point of `c` is at least `lower` and at most `upper`.
pub fn is_char_between(c: char, lower: u32, upper: u32) -> (r: bool)
    ensures
        r == between(c, lower, upper),
{
    let code: u32 = c as u32;
    lower <= code && code <= upper
}

/// Tests whether the code point of `c` lies in the closed interval `range`.
pub fn is_char_in_range(c: char, range: &(u32, u32)) -> (r: bool)
    ensures
        r == in_range(c, *range),
{
    is_char_between(c, range.0, range.1)
}

/// Tests whether the code point of `c` lies in one of `ranges`.
pub fn is_char_in_ranges(c: char, ranges: &[(u32, u32)]) -> (r: bool)
    ensures
        r == in_ranges(c, ranges@),
{
    let mut i: usize = 0;
    while i < ranges.len()
        invariant
            i <= ranges.len(),
            forall|j: int| 0 <= j < i ==> !in_range(c, #[trigger] ranges@[j]),
        decreases ranges.len() - i,
    {
        if is_char_in_range(c, &ranges[i]) {
            return true;
        }
        i += 1;
    }
    false
}

/// Tests whether every character of `input` lies in one of `ranges`.
pub fn all_in_ranges(input: &str, ranges: &[(u32, u32)]) -> (r: bool)
    ensures
        r == every_in_ranges(input@, ranges@),
{
    for c in it: input.chars()
        invariant
            it.seq() == input@,
            forall|i: int| 0 <= i < it.index() ==> in_ranges(#[trigger] input@[i], ranges@),
    {
        if !is_char_in_ranges(c, ranges) {
            return false;
        }
    }
    true
}

/// Tests whether `c` is romaji.
pub fn char_is_romaji(c: char) -> (r: bool)
    ensures
        r == romaji_char(c),
{
    is_char_in_ranges(c, &ROMAJI_RANGES)
}

/// Tests whether `c` is kana.
pub fn char_is_kana(c: char) -> (r: bool)
    ensures
        r == kana_char(c),
{
    is_char_in_ranges(c, &KANA_RANGES)
}

/// Tests whether `c` is hiragana.
pub fn char_is_hiragana(c: char) -> (r: bool)
    ensures
        r == hiragana_char(c),
{
    c as u32 == PROLONGED_SOUND_MARK || is_char_between(c, HIRAGANA_START, HIRAGANA_END)
}

/// Tests whether `c` is katakana.
pub fn char_is_katakana(c: char) -> (r: bool)
    ensures
        r == katakana_char(c),
{
    is_char_between(c, KATAKANA_START, KATAKANA_END)
}

/// Tests whether `c` is a kanji.
pub fn char_is_kanji(c: char) -> (r: bool)
    ensures
        r == kanji_char(c),
{
    is_char_between(c, KANJI_START, KANJI_END)
}

/// Tests whether `input` is romaji, Hepburn romanisation included. The empty
/// text is.
pub fn is_romaji(input: &str) -> (r: bool)
    ensures
        r == romaji_text(input@),
{
    all_in_ranges(input, &ROMAJI_RANGES)
}

/// Tests whether `input` holds nothing but kana, kanji, Japanese punctuation
/// and digits. The empty text does.
pub fn is_japanese(input: &str) -> (r: bool)
    ensures
        r == japanese_text(input@),
{
    all_in_ranges(input, &JAPANESE_RANGES)
}

/// Tests whether `input` is kana. The empty text is.
pub fn is_kana(input: &str) -> (r: bool)
    ensures
        r == kana_text(input@),
{
    all_in_ranges(input, &KANA_RANGES)
}

/// Tests whether `input` is hiragana. The empty text is.
pub fn is_hiragana(input: &str) -> (r: bool)
    ensures
        r == hiragana_text(input@),
{
    for c in it: input.chars()
        invariant
            it.seq() == input@,
            forall|i: int| 0 <= i < it.index() ==> hiragana_char(#[trigger] input@[i]),
    {
        if !char_is_hiragana(c) {
            return false;
        }
    }
    true
}

/// Tests whether `input` is katakana. The empty text is.
pub fn is_katakana(input: &str) -> (r: bool)
    ensures
        r == katakana_text(input@),
{
    for c in it: input.chars()
        invariant
            it.seq() == input@,
            forall|i: int| 0 <= i < it.index() ==> katakana_char(#[trigger] input@[i]),
    {
        if !char_is_katakana(c) {
            return false;
        }
    }
    true
}

/// Tests whether `input` is kanji. The empty text is.
pub fn is_kanji(input: &str) -> (r: bool)
    ensures
        r == kanji_text(input@),
{
    for c in it: input.chars()
        invariant
            it.seq() == input@,
            forall|i: int| 0 <= i < it.index() ==> kanji_char(#[trigger] input@[i]),
    {
        if !char_is_kanji(c) {
            return false;
        }
    }
    true
}

/// Tests whether `input` mixes kana with romaji. A kanji in `input` makes
/// the answer `false` unless `pass_kanji` is set. The empty text is not
/// mixed.
pub fn is_mixed(input: &str, pass_kanji: bool) -> (r: bool)
    ensures
        r == mixed_text(input@, pass_kanji),
{
    let mut kana = false;
    let mut romaji = false;

    for c in it: input.chars()
        invariant
            it.seq() == input@,
            kana == (exists|i: int| 0 <= i < it.index() && kana_char(#[trigger] input@[i])),
            romaji == (exists|i: int| 0 <= i < it.index() && romaji_char(#[trigger] input@[i])),
            pass_kanji || forall|i: int| 0 <= i < it.index() ==> !kanji_char(#[trigger] input@[i]),
    {
        if !pass_kanji && char_is_kanji(c) {
            return false;
        }
        if char_is_kana(c) {
            kana = true;
        }
        if char_is_romaji(c) {
            romaji = true;
        }
    }
    kana && romaji
}

/// The kana table holds the hiragana and katakana blocks, which lie side by
/// side, and the halfwidth kana punctuation and katakana, which do too.
pub proof fn lemma_kana_char(c: char)
    ensures
        kana_char(c) <==> (0x3040 <= c as u32 <= 0x30FF || 0xFF61 <= c as u32 <= 0xFF9F),
{
    let t = KANA_RANGES@;
    if kana_char(c) {
        let i = choose|i: int| 0 <= i < t.len() && in_range(c, #[trigger] t[i]);
        assert(i == 0 || i == 1 || i == 2 || i == 3);
    }
    if 0x3040 <= c as u32 <= 0x309F {
        assert(in_range(c, t[0]));
    }
    if 0x30A0 <= c as u32 <= 0x30FF {
        assert(in_range(c, t[1]));
    }
    if 0xFF61 <= c as u32 <= 0xFF65 {
        assert(in_range(c, t[2]));
    }
    if 0xFF66 <= c as u32 <= 0xFF9F {
        assert(in_range(c, t[3]));
    }
}

/// The romaji table holds ASCII, the ten vowels with a macron, and the four
/// curly quotes.
pub proof fn lemma_romaji_char(c: char)
    ensures
        romaji_char(c) <==> {
            let code = c as u32;
            ||| code <= 0x7F
            ||| code == 0x100 || code == 0x101
            ||| code == 0x112 || code == 0x113
            ||| code == 0x12A || code == 0x12B
            ||| code == 0x14C || code == 0x14D
            ||| code == 0x16A || code == 0x16B
            ||| code == 0x2018 || code == 0x2019
            ||| code == 0x201C || code == 0x201D
        },
{
    let t = ROMAJI_RANGES@;
    let code = c as u32;
    if romaji_char(c) {
        let i = choose|i: int| 0 <= i < t.len() && in_range(c, #[trigger] t[i]);
        assert(0 <= i < 8);
        assert(i == 0 || i == 1 || i == 2 || i == 3 || i == 4 || i == 5 || i == 6 || i == 7);
    }
    if code <= 0x7F {
        assert(in_range(c, t[0]));
    }
    if code == 0x100 || code == 0x101 {
        assert(in_range(c, t[1]));
    }
    if code == 0x112 || code == 0x113 {
        assert(in_range(c, t[2]));
    }
    if code == 0x12A || code == 0x12B {
        assert(in_range(c, t[3]));
    }
    if code == 0x14C || code == 0x14D {
        assert(in_range(c, t[4]));
    }
    if code == 0x16A || code == 0x16B {
        assert(in_range(c, t[5]));
    }
    if code == 0x2018 || code == 0x2019 {
        assert(in_range(c, t[6]));
    }
    if code == 0x201C || code == 0x201D {
        assert(in_range(c, t[7]));
    }
}

/// The Japanese table holds the ASCII digits; the CJK symbols and
/// punctuation and both kana blocks, which lie side by side; the ideographs
/// of extension A and of the common block; and, of the halfwidth and
/// fullwidth forms, the punctuation, the digits, the halfwidth kana and the
/// currency signs.
pub proof fn lemma_japanese_char(c: char)
    ensures
        japanese_char(c) <==> {
            let code = c as u32;
            ||| 0x30 <= code <= 0x39
            ||| 0x3000 <= code <= 0x30FF
            ||| 0x3400 <= code <= 0x4DBF
            ||| 0x4E00 <= code <= 0x9FFF
            ||| 0xFF01 <= code <= 0xFF1F
            ||| 0xFF3B <= code <= 0xFF3F
            ||| 0xFF5B <= code <= 0xFF9F
            ||| 0xFFE0 <= code <= 0xFFEE
        },
{
    let t = JAPANESE_RANGES@;
    let code = c as u32;
    if japanese_char(c) {
        let i = choose|i: int| 0 <= i < t.len() && in_range(c, #[trigger] t[i]);
        assert(0 <= i < 16);
        assert(i == 0 || i == 1 || i == 2 || i == 3 || i == 4 || i == 5 || i == 6 || i == 7
            || i == 8 || i == 9 || i == 10 || i == 11 || i == 12 || i == 13 || i == 14 || i
            == 15);
    }
    if 0x30 <= code <= 0x39 {
        assert(in_range(c, t[12]));
    }
    if 0x3000 <= code <= 0x303F {
        assert(in_range(c, t[4]));
    }
    if 0x3040 <= code <= 0x309F {
        assert(in_range(c, t[0]));
    }
    if 0x30A0 <= code <= 0x30FF {
        assert(in_range(c, t[1]));
    }
    if 0x3400 <= code <= 0x4DBF {
        assert(in_range(c, t[15]));
    }
    if 0x4E00 <= code <= 0x9FFF {
        assert(in_range(c, t[14]));
    }
    if 0xFF01 <= code <= 0xFF0F {
        assert(in_range(c, t[7]));
    }
    if 0xFF10 <= code <= 0xFF19 {
        assert(in_range(c, t[13]));
    }
    if 0xFF1A <= code <= 0xFF1F {
        assert(in_range(c, t[8]));
    }
    if 0xFF3B <= code <= 0xFF3F {
        assert(in_range(c, t[9]));
    }
    if 0xFF5B <= code <= 0xFF60 {
        assert(in_range(c, t[10]));
    }
    if 0xFF61 <= code <= 0xFF65 {
        assert(in_range(c, t[2]));
    }
    if 0xFF66 <= code <= 0xFF9F {
        assert(in_range(c, t[3]));
    }
    if 0xFFE0 <= code <= 0xFFEE {
        assert(in_range(c, t[11]));
    }
}

/// Hiragana and katakana are kana, and kana and kanji are Japanese.
pub proof fn lemma_scripts_nest(c: char)
    ensures
        hiragana_char(c) ==> kana_char(c),
        katakana_char(c) ==> kana_char(c),
        kana_char(c) ==> japanese_char(c),
        kanji_char(c) ==> japanese_char(c),
{
    lemma_kana_char(c);
    lemma_japanese_char(c);
}

/// No character belongs to two of romaji, kana and kanji.
pub proof fn lemma_scripts_apart(c: char)
    ensures
        !(romaji_char(c) && kana_char(c)),
        !(romaji_char(c) && kanji_char(c)),
        !(kana_char(c) && kanji_char(c)),
{
    lemma_kana_char(c);
    lemma_romaji_char(c);
}

/// The empty text is of every script, and is not mixed.
pub proof fn lemma_empty_text(pass_kanji: bool)
    ensures
        romaji_text(Seq::empty()),
        japanese_text(Seq::empty()),
        kana_text(Seq::empty()),
        hiragana_text(Seq::empty()),
        katakana_text(Seq::empty()),
        kanji_text(Seq::empty()),
        !mixed_text(Seq::empty(), pass_kanji),
{
}

/// Two hiragana texts, one behind the other, are a hiragana text.
pub proof fn lemma_hiragana_concat(s: Seq<char>, t: Seq<char>)
    requires
        hiragana_text(s),
        hiragana_text(t),
    ensures
        hiragana_text(s + t),
{
    assert forall|i: int| 0 <= i < (s + t).len() implies hiragana_char(#[trigger] (s + t)[i]) by {
        if i < s.len() {
            assert((s + t)[i] == s[i]);
        } else {
            assert((s + t)[i] == t[i - s.len()]);
        }
    }
}

/// A text is of a script exactly when both of its halves are, wherever it
/// is cut.
pub proof fn lemma_scripts_concat(s: Seq<char>, t: Seq<char>)
    ensures
        romaji_text(s + t) <==> romaji_text(s) && romaji_text(t),
        japanese_text(s + t) <==> japanese_text(s) && japanese_text(t),
        kana_text(s + t) <==> kana_text(s) && kana_text(t),
        hiragana_text(s + t) <==> hiragana_text(s) && hiragana_text(t),
        katakana_text(s + t) <==> katakana_text(s) && katakana_text(t),
        kanji_text(s + t) <==> kanji_text(s) && kanji_text(t),
{
    let st = s + t;
    assert forall|i: int| 0 <= i < s.len() implies #[trigger] s[i] == st[i] by {}
    assert forall|i: int| 0 <= i < t.len() implies #[trigger] t[i] == st[i + s.len()] by {}
    assert forall|i: int| 0 <= i < st.len() implies #[trigger] st[i] == (if i < s.len() {
        s[i]
    } else {
        t[i - s.len()]
    }) by {}
}

/// A text lies in a table exactly when both of its halves do, wherever it
/// is cut.
pub proof fn lemma_every_in_ranges_concat(s: Seq<char>, t: Seq<char>, ranges: Seq<(u32, u32)>)
    ensures
        every_in_ranges(s + t, ranges) <==> every_in_ranges(s, ranges) && every_in_ranges(
            t,
            ranges,
        ),
{
    if every_in_ranges(s + t, ranges) {
        assert forall|i: int| 0 <= i < s.len() implies in_ranges(#[trigger] s[i], ranges) by {
            assert((s + t)[i] == s[i]);
        }
        assert forall|i: int| 0 <= i < t.len() implies in_ranges(#[trigger] t[i], ranges) by {
            assert((s + t)[i + s.len()] == t[i]);
        }
    }
    if every_in_ranges(s, ranges) && every_in_ranges(t, ranges) {
        assert forall|i: int| 0 <= i < (s + t).len() implies in_ranges(
            #[trigger] (s + t)[i],
            ranges,
        ) by {
            if i < s.len() {
                assert((s + t)[i] == s[i]);
            } else {
                assert((s + t)[i] == t[i - s.len()]);
            }
        }
    }
}

/// Kanji change whether a text is mixed only where they are not let pass:
/// a text is mixed with kanji barred exactly when it is mixed with kanji let
/// pass and holds no kanji.
pub proof fn lemma_mixed_pass_kanji(s: Seq<char>)
    ensures
        mixed_text(s, false) <==> mixed_text(s, true) && !has_kanji(s),
{
}

} // verus!
