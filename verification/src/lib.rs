//! Detection of the scripts of Japanese text, and conversion between
//! hiragana and katakana.
//!
//! A text is seen as the sequence of its characters, and a character as its
//! code point. [`classify`] tells romaji, kana, hiragana, katakana and kanji
//! apart by the tables and bounds of [`constants`]. [`hiragana_to_katakana`]
//! and [`katakana_to_hiragana`] convert between the two kana scripts; the
//! second resolves prolonged sound marks with the tables of [`vowels`].
//! [`round_trip`] shows that hiragana letters survive both conversions in
//! turn.
//!
//! Every function comes with a contract that says exactly what it returns,
//! and is proved to meet it. The proofs rest on the contracts that [`text`]
//! gives to two functions of the standard library.

pub mod classify;
pub mod constants;
pub mod hiragana_to_katakana;
pub mod katakana_to_hiragana;
pub mod round_trip;
pub mod text;
pub mod vowels;

pub use classify::{is_hiragana, is_japanese, is_kana, is_kanji, is_katakana, is_mixed, is_romaji};
pub use hiragana_to_katakana::hiragana_to_katakana;
pub use katakana_to_hiragana::katakana_to_hiragana;
