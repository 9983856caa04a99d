//! The two tables that resolve a prolonged sound mark in hiragana.
//!
//! The mark lengthens the vowel of the kana before it, and hiragana writes a
//! long vowel with a vowel letter of its own. The first table gives the vowel
//! on which the reading of a hiragana character ends, as the letter that
//! Hepburn romanisation writes for it. The second gives the hiragana that
//! lengthens that vowel.

use crate::classify::between;
use crate::constants::{HIRAGANA_END, HIRAGANA_START};
use vstd::prelude::*;

verus! {

/// The romaji vowel on which the reading of `kana` ends, for a hiragana
/// letter whose reading ends on a vowel. The small ka and the small ke are
/// both read ka. The small tsu and the syllabic n have no vowel, nor has
/// anything that is no hiragana letter.
pub open spec fn trailing_vowel(kana: char) -> Option<char> {
    match kana {
        'ぁ' | 'あ' | 'か' | 'が' | 'さ' | 'ざ' | 'た' | 'だ' | 'な' | 'は' | 'ば' | 'ぱ' | 'ま'
        | 'ゃ' | 'や' | 'ら' | 'ゎ' | 'わ' | 'ゕ' | 'ゖ' => Some('a'),
        'ぃ' | 'い' | 'き' | 'ぎ' | 'し' | 'じ' | 'ち' | 'ぢ' | 'に' | 'ひ' | 'び' | 'ぴ' | 'み'
        | 'り' | 'ゐ' => Some('i'),
        'ぅ' | 'う' | 'く' | 'ぐ' | 'す' | 'ず' | 'つ' | 'づ' | 'ぬ' | 'ふ' | 'ぶ' | 'ぷ' | 'む'
        | 'ゅ' | 'ゆ' | 'る' | 'ゔ' => Some('u'),
        'ぇ' | 'え' | 'け' | 'げ' | 'せ' | 'ぜ' | 'て' | 'で' | 'ね' | 'へ' | 'べ' | 'ぺ' | 'め'
        | 'れ' | 'ゑ' => Some('e'),
        'ぉ' | 'お' | 'こ' | 'ご' | 'そ' | 'ぞ' | 'と' | 'ど' | 'の' | 'ほ' | 'ぼ' | 'ぽ' | 'も'
        | 'ょ' | 'よ' | 'ろ' | 'を' => Some('o'),
        _ => None,
    }
}

/// The hiragana that writes the long form of `vowel`, one of the five romaji
/// vowels. A long o is written with u.
pub open spec fn long_vowel(vowel: char) -> Option<char> {
    match vowel {
        'a' => Some('あ'),
        'i' => Some('い'),
        'u' => Some('う'),
        'e' => Some('え'),
        'o' => Some('う'),
        _ => None,
    }
}

/// What a prolonged sound mark behind `kana` becomes in hiragana, where the
/// two tables know it.
pub open spec fn lengthened(kana: char) -> Option<char> {
    match trailing_vowel(kana) {
        Some(vowel) => long_vowel(vowel),
        None => None,
    }
}

/// Looks `kana` up in the table of trailing vowels.
pub fn lookup_trailing_vowel(kana: char) -> (r: Option<char>)
    ensures
        r == trailing_vowel(kana),
{
    match kana {
        'ぁ' | 'あ' | 'か' | 'が' | 'さ' | 'ざ' | 'た' | 'だ' | 'な' | 'は' | 'ば' | 'ぱ' | 'ま'
        | 'ゃ' | 'や' | 'ら' | 'ゎ' | 'わ' | 'ゕ' | 'ゖ' => Some('a'),
        'ぃ' | 'い' | 'き' | 'ぎ' | 'し' | 'じ' | 'ち' | 'ぢ' | 'に' | 'ひ' | 'び' | 'ぴ' | 'み'
        | 'り' | 'ゐ' => Some('i'),
        'ぅ' | 'う' | 'く' | 'ぐ' | 'す' | 'ず' | 'つ' | 'づ' | 'ぬ' | 'ふ' | 'ぶ' | 'ぷ' | 'む'
        | 'ゅ' | 'ゆ' | 'る' | 'ゔ' => Some('u'),
        'ぇ' | 'え' | 'け' | 'げ' | 'せ' | 'ぜ' | 'て' | 'で' | 'ね' | 'へ' | 'べ' | 'ぺ' | 'め'
        | 'れ' | 'ゑ' => Some('e'),
        'ぉ' | 'お' | 'こ' | 'ご' | 'そ' | 'ぞ' | 'と' | 'ど' | 'の' | 'ほ' | 'ぼ' | 'ぽ' | 'も'
        | 'ょ' | 'よ' | 'ろ' | 'を' => Some('o'),
        _ => None,
    }
}

/// Looks `vowel` up in the table of long vowels.
pub fn lookup_long_vowel(vowel: char) -> (r: Option<char>)
    ensures
        r == long_vowel(vowel),
{
    match vowel {
        'a' => Some('あ'),
        'i' => Some('い'),
        'u' => Some('う'),
        'e' => Some('え'),
        'o' => Some('う'),
        _ => None,
    }
}

/// Resolves a prolonged sound mark behind `kana`: the vowel of `kana` from
/// the first table, then its long form from the second. `None` when either
/// table has no entry.
pub fn lengthen(kana: char) -> (r: Option<char>)
    ensures
        r == lengthened(kana),
{
    match lookup_trailing_vowel(kana) {
        Some(vowel) => lookup_long_vowel(vowel),
        None => None,
    }
}

/// The first table knows the hiragana letters but for the small tsu and the
/// syllabic n, and nothing else. The second knows every vowel that the first
/// gives, so a prolonged sound mark is resolved exactly where the first
/// table knows the kana before it, and then to one of four hiragana vowels.
pub proof fn lemma_vowel_tables(kana: char)
    ensures
        trailing_vowel(kana) is Some <==> between(kana, HIRAGANA_START, HIRAGANA_END) && kana
            != 'っ' && kana != 'ん',
        trailing_vowel(kana) matches Some(vowel) ==> vowel == 'a' || vowel == 'i' || vowel == 'u'
            || vowel == 'e' || vowel == 'o',
        lengthened(kana) is Some <==> trailing_vowel(kana) is Some,
        lengthened(kana) matches Some(long) ==> long == 'あ' || long == 'い' || long == 'う' || long
            == 'え',
{
}

} // verus!
