use wanakana::classify::{
    all_in_ranges, char_is_hiragana, char_is_kana, char_is_kanji, char_is_katakana,
    char_is_romaji, is_char_between, is_char_in_range, is_char_in_ranges,
};
use wanakana::constants::{JAPANESE_RANGES, KANA_RANGES, ROMAJI_RANGES};
use wanakana::{is_hiragana, is_japanese, is_kana, is_kanji, is_katakana, is_mixed, is_romaji};

#[test]
fn romaji_with_macrons_is_romaji() {
    assert!(is_romaji("Tōkyō and Ōsaka"));
    assert!(is_romaji("12a*b&c-d"));
}

#[test]
fn kana_and_kanji_are_not_romaji() {
    assert!(!is_romaji("あアA"));
    assert!(!is_romaji("お願い"));
}

#[test]
fn fullwidth_punctuation_is_not_romaji() {
    assert!(!is_romaji("a！b&cーd"));
}

#[test]
fn curly_quotes_are_romaji() {
    assert!(is_romaji("‘a’ “b”"));
    assert!(!is_romaji("‚"));
    assert!(!is_romaji("„"));
}

#[test]
fn romaji_ends_with_ascii_and_the_listed_vowels() {
    assert!(is_romaji("\u{0}"));
    assert!(is_romaji("\u{7f}"));
    assert!(!is_romaji("\u{80}"));
    assert!(!is_romaji("\u{ff}"));
    assert!(is_romaji("Āā"));
    assert!(!is_romaji("Ă"));
    assert!(is_romaji("Ēē"));
    assert!(!is_romaji("Ĕ"));
    assert!(is_romaji("Īī"));
    assert!(!is_romaji("Ĭ"));
    assert!(is_romaji("Ōō"));
    assert!(!is_romaji("Ŏ"));
    assert!(is_romaji("Ūū"));
    assert!(!is_romaji("Ŭ"));
}

#[test]
fn kanji_and_kana_are_japanese() {
    assert!(is_japanese("泣き虫"));
    assert!(is_japanese("あア"));
    assert!(is_japanese("泣き虫。！〜＄"));
}

#[test]
fn both_widths_of_digits_are_japanese() {
    assert!(is_japanese("２月1日"));
    assert!(is_japanese("0123456789"));
    assert!(is_japanese("０１２３４５６７８９"));
}

#[test]
fn latin_punctuation_and_letters_are_not_japanese() {
    assert!(!is_japanese("泣き虫.!~$"));
    assert!(!is_japanese("A泣き虫"));
    assert!(!is_japanese("A"));
    assert!(!is_japanese("/"));
    assert!(!is_japanese(":"));
}

#[test]
fn japanese_ends_where_its_ranges_end() {
    assert!(!is_japanese("\u{2fff}"));
    assert!(is_japanese("\u{3000}"));
    assert!(is_japanese("\u{30ff}"));
    assert!(!is_japanese("\u{3100}"));
    assert!(is_japanese("\u{3400}"));
    assert!(is_japanese("\u{4dbf}"));
    assert!(!is_japanese("\u{4dc0}"));
    assert!(is_japanese("\u{4e00}"));
    assert!(is_japanese("\u{9fff}"));
    assert!(!is_japanese("\u{a000}"));
    assert!(!is_japanese("\u{ff00}"));
    assert!(is_japanese("\u{ff01}"));
    assert!(is_japanese("\u{ff1f}"));
    assert!(!is_japanese("＠"));
    assert!(!is_japanese("Ａ"));
    assert!(is_japanese("［"));
    assert!(is_japanese("＿"));
    assert!(!is_japanese("｀"));
    assert!(!is_japanese("ａ"));
    assert!(is_japanese("｛"));
    assert!(is_japanese("\u{ff9f}"));
    assert!(!is_japanese("\u{ffa0}"));
    assert!(is_japanese("\u{ffe0}"));
    assert!(is_japanese("\u{ffee}"));
    assert!(!is_japanese("\u{ffef}"));
}

#[test]
fn hiragana_and_katakana_are_kana() {
    assert!(is_kana("あ"));
    assert!(is_kana("ア"));
    assert!(is_kana("あーア"));
    assert!(is_kana("ｱｲｳ"));
}

#[test]
fn latin_is_not_kana() {
    assert!(!is_kana("A"));
    assert!(!is_kana("あAア"));
}

#[test]
fn kana_ends_where_its_blocks_end() {
    assert!(!is_kana("\u{303f}"));
    assert!(is_kana("\u{3040}"));
    assert!(is_kana("\u{30ff}"));
    assert!(!is_kana("\u{3100}"));
    assert!(!is_kana("\u{ff60}"));
    assert!(is_kana("\u{ff61}"));
    assert!(is_kana("\u{ff9f}"));
    assert!(!is_kana("\u{ffa0}"));
}

#[test]
fn hiragana_with_a_long_vowel_is_hiragana() {
    assert!(is_hiragana("げーむ"));
}

#[test]
fn latin_and_katakana_are_not_hiragana() {
    assert!(!is_hiragana("A"));
    assert!(!is_hiragana("あア"));
}

#[test]
fn hiragana_ends_with_its_letters() {
    assert!(!is_hiragana("\u{3040}"));
    assert!(is_hiragana("ぁ"));
    assert!(is_hiragana("ゖ"));
    assert!(!is_hiragana("\u{3097}"));
    assert!(!is_hiragana("ゟ"));
    assert!(!is_hiragana("・"));
    assert!(is_hiragana("ー"));
}

#[test]
fn katakana_with_a_long_vowel_is_katakana() {
    assert!(is_katakana("ゲーム"));
}

#[test]
fn hiragana_and_latin_are_not_katakana() {
    assert!(!is_katakana("あ"));
    assert!(!is_katakana("A"));
    assert!(!is_katakana("あア"));
}

#[test]
fn katakana_ends_with_the_prolonged_sound_mark() {
    assert!(!is_katakana("゠"));
    assert!(is_katakana("ァ"));
    assert!(is_katakana("ヺ"));
    assert!(is_katakana("・"));
    assert!(is_katakana("ー"));
    assert!(!is_katakana("ヽ"));
    assert!(!is_katakana("ｱ"));
}

#[test]
fn ideographs_are_kanji() {
    assert!(is_kanji("刀"));
    assert!(is_kanji("切腹"));
}

#[test]
fn kana_latin_and_emoji_are_not_kanji() {
    assert!(!is_kanji("勢い"));
    assert!(!is_kanji("あAア"));
    assert!(!is_kanji("🦀"));
}

#[test]
fn kanji_ends_where_its_interval_ends() {
    assert!(!is_kanji("\u{4dff}"));
    assert!(is_kanji("\u{4e00}"));
    assert!(is_kanji("\u{9faf}"));
    assert!(!is_kanji("\u{9fb0}"));
    assert!(!is_kanji("\u{3400}"));
}

#[test]
fn kana_beside_romaji_is_mixed() {
    assert!(is_mixed("Abあア", true));
    assert!(is_mixed("Abあア", false));
    assert!(is_mixed("あA", false));
    assert!(is_mixed("Aあ", false));
}

#[test]
fn kanji_bars_mixed_unless_passed() {
    assert!(is_mixed("お腹A", true));
    assert!(!is_mixed("お腹A", false));
    assert!(!is_mixed("腹おA", false));
    assert!(!is_mixed("おA腹", false));
}

#[test]
fn one_script_alone_is_not_mixed() {
    assert!(!is_mixed("ab", true));
    assert!(!is_mixed("あア", true));
    assert!(!is_mixed("ab", false));
    assert!(!is_mixed("あア", false));
    assert!(!is_mixed("腹", true));
    assert!(!is_mixed("腹a", true));
    assert!(!is_mixed("腹あ", true));
}

#[test]
fn empty_text_is_of_every_script() {
    assert!(is_romaji(""));
    assert!(is_japanese(""));
    assert!(is_kana(""));
    assert!(is_hiragana(""));
    assert!(is_katakana(""));
    assert!(is_kanji(""));
}

#[test]
fn empty_text_is_not_mixed() {
    assert!(!is_mixed("", true));
    assert!(!is_mixed("", false));
}

#[test]
fn two_hiragana_texts_make_one() {
    let s = "ひら";
    let t = "がなー";
    assert!(is_hiragana(s));
    assert!(is_hiragana(t));
    assert!(is_hiragana(&format!("{}{}", s, t)));
    assert!(!is_hiragana(&format!("{}{}", s, "カ")));
    assert!(!is_hiragana(&format!("{}{}", "カ", t)));
}

#[test]
fn intervals_are_closed_at_both_ends() {
    assert!(!is_char_between('`', 0x61, 0x7a));
    assert!(is_char_between('a', 0x61, 0x7a));
    assert!(is_char_between('m', 0x61, 0x7a));
    assert!(is_char_between('z', 0x61, 0x7a));
    assert!(!is_char_between('{', 0x61, 0x7a));
    assert!(!is_char_between('a', 0x62, 0x61));
    assert!(is_char_in_range('z', &(0x61, 0x7a)));
    assert!(!is_char_in_range('{', &(0x61, 0x7a)));
    assert!(is_char_in_range('a', &(0x61, 0x61)));
}

#[test]
fn a_table_is_the_union_of_its_ranges() {
    let table = [(0x30, 0x39), (0x61, 0x66), (0x41, 0x46)];
    assert!(is_char_in_ranges('0', &table));
    assert!(is_char_in_ranges('f', &table));
    assert!(is_char_in_ranges('A', &table));
    assert!(!is_char_in_ranges('g', &table));
    assert!(!is_char_in_ranges('a', &[]));
    assert!(all_in_ranges("c0ffEE", &table));
    assert!(!all_in_ranges("coffee", &table));
    assert!(all_in_ranges("", &[]));
    assert!(!all_in_ranges("a", &[]));
}

#[test]
fn tables_hold_what_their_names_say() {
    assert_eq!(KANA_RANGES.len(), 4);
    assert_eq!(JAPANESE_RANGES.len(), 16);
    assert_eq!(ROMAJI_RANGES.len(), 8);
    assert!(KANA_RANGES.iter().all(|r| r.0 <= r.1));
    assert!(JAPANESE_RANGES.iter().all(|r| r.0 <= r.1));
    assert!(ROMAJI_RANGES.iter().all(|r| r.0 <= r.1));
    assert!(KANA_RANGES.iter().all(|r| JAPANESE_RANGES.contains(r)));
}

#[test]
fn characters_are_classified_one_by_one() {
    assert!(char_is_romaji('a'));
    assert!(char_is_romaji('ō'));
    assert!(!char_is_romaji('あ'));
    assert!(char_is_kana('あ'));
    assert!(char_is_kana('ア'));
    assert!(char_is_kana('ｱ'));
    assert!(!char_is_kana('a'));
    assert!(!char_is_kana('腹'));
    assert!(char_is_hiragana('あ'));
    assert!(char_is_hiragana('ー'));
    assert!(!char_is_hiragana('ア'));
    assert!(char_is_katakana('ア'));
    assert!(char_is_katakana('ー'));
    assert!(!char_is_katakana('あ'));
    assert!(char_is_kanji('腹'));
    assert!(!char_is_kanji('あ'));
}
