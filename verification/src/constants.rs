//! Code points and code point tables of the Japanese scripts.
//!
//! A range is a pair `(start, end)` of code points and stands for the closed
//! interval from `start` to `end`, both included. A table is an array of
//! ranges and stands for their union.

use vstd::prelude::*;

verus! {

/// CJK symbols and punctuation.
pub const CJK_SYMBOLS_PUNCTUATION: (u32, u32) = (0x3000, 0x303F);

/// The katakana middle dot and the prolonged sound mark.
pub const KATAKANA_PUNCTUATION: (u32, u32) = (0x30FB, 0x30FC);

/// The hiragana block.
pub const HIRAGANA_CHARS: (u32, u32) = (0x3040, 0x309F);

/// The katakana block.
pub const KATAKANA_CHARS: (u32, u32) = (0x30A0, 0x30FF);

/// Fullwidth digits.
pub const ZENKAKU_NUMBERS: (u32, u32) = (0xFF10, 0xFF19);

/// Fullwidth punctuation in front of the fullwidth digits.
pub const ZENKAKU_PUNCTUATION_1: (u32, u32) = (0xFF01, 0xFF0F);

/// Fullwidth punctuation between the fullwidth digits and capitals.
pub const ZENKAKU_PUNCTUATION_2: (u32, u32) = (0xFF1A, 0xFF1F);

/// Fullwidth punctuation between the fullwidth capitals and small letters.
pub const ZENKAKU_PUNCTUATION_3: (u32, u32) = (0xFF3B, 0xFF3F);

/// Fullwidth punctuation behind the fullwidth small letters.
pub const ZENKAKU_PUNCTUATION_4: (u32, u32) = (0xFF5B, 0xFF60);

/// Fullwidth currency signs and halfwidth symbols.
pub const ZENKAKU_SYMBOLS_CURRENCY: (u32, u32) = (0xFFE0, 0xFFEE);

/// Halfwidth kana punctuation.
pub const KANA_PUNCTUATION: (u32, u32) = (0xFF61, 0xFF65);

/// Halfwidth katakana.
pub const HANKAKU_KATAKANA: (u32, u32) = (0xFF66, 0xFF9F);

/// The common CJK unified ideographs.
pub const COMMON_CJK: (u32, u32) = (0x4E00, 0x9FFF);

/// The rare CJK unified ideographs of extension A.
pub const RARE_CJK: (u32, u32) = (0x3400, 0x4DBF);

/// ASCII digits.
pub const LATIN_NUMBERS: (u32, u32) = (0x0030, 0x0039);

/// ASCII.
pub const MODERN_ENGLISH: (u32, u32) = (0x0000, 0x007F);

/// Hiragana, katakana, halfwidth kana punctuation and halfwidth katakana.
pub const KANA_RANGES: [(u32, u32); 4] = [
    HIRAGANA_CHARS,
    KATAKANA_CHARS,
    KANA_PUNCTUATION,
    HANKAKU_KATAKANA,
];

/// Everything that counts as Japanese text: kana, Japanese punctuation,
/// ASCII and fullwidth digits, and the CJK ideographs.
pub const JAPANESE_RANGES: [(u32, u32); 16] = [
    // kana
    HIRAGANA_CHARS,
    KATAKANA_CHARS,
    KANA_PUNCTUATION,
    HANKAKU_KATAKANA,
    // punctuation
    CJK_SYMBOLS_PUNCTUATION,
    KANA_PUNCTUATION,
    KATAKANA_PUNCTUATION,
    ZENKAKU_PUNCTUATION_1,
    ZENKAKU_PUNCTUATION_2,
    ZENKAKU_PUNCTUATION_3,
    ZENKAKU_PUNCTUATION_4,
    ZENKAKU_SYMBOLS_CURRENCY,
    // digits and ideographs
    LATIN_NUMBERS,
    ZENKAKU_NUMBERS,
    COMMON_CJK,
    RARE_CJK,
];

/// ASCII, the vowels with a macron of Hepburn romanisation, and the curly
/// quotes.
pub const ROMAJI_RANGES: [(u32, u32); 8] = [
    MODERN_ENGLISH,
    // A, E, I, O and U with a macron, each as a capital and a small letter
    (0x0100, 0x0101),
    (0x0112, 0x0113),
    (0x012A, 0x012B),
    (0x014C, 0x014D),
    (0x016A, 0x016B),
    // single and double curly quotes
    (0x2018, 0x2019),
    (0x201C, 0x201D),
];

/// The first hiragana letter, small a.
pub const HIRAGANA_START: u32 = 0x3041;

/// The last hiragana letter, small ke.
pub const HIRAGANA_END: u32 = 0x3096;

/// The first katakana letter, small a.
pub const KATAKANA_START: u32 = 0x30A1;

/// The last code point taken for katakana, the prolonged sound mark.
pub const KATAKANA_END: u32 = 0x30FC;

/// The first kanji.
pub const KANJI_START: u32 = 0x4E00;

/// The last kanji.
pub const KANJI_END: u32 = 0x9FAF;

/// The prolonged sound mark, which lengthens the vowel before it.
pub const PROLONGED_SOUND_MARK: u32 = 0x30FC;

/// The katakana middle dot, which separates words written in kana.
pub const KANA_SLASH_DOT: u32 = 0x30FB;

/// A table is well formed when no range of it ends before it starts.
pub open spec fn well_formed(ranges: Seq<(u32, u32)>) -> bool {
    forall|i: int| 0 <= i < ranges.len() ==> (#[trigger] ranges[i]).0 <= ranges[i].1
}

/// The three tables are well formed.
pub proof fn lemma_tables_well_formed()
    ensures
        well_formed(KANA_RANGES@),
        well_formed(JAPANESE_RANGES@),
        well_formed(ROMAJI_RANGES@),
{
}

} // verus!
