use unicode_normalization::UnicodeNormalization;
use vltl::converter::{convert_korean_to_english, convert_normalized, decompose_all, map_keys};
use vltl::hangul::decompose_hangul;
use vltl::keymap::push_keys;

#[test]
fn test_simple_conversion() {
    assert_eq!(convert_korean_to_english("피"), "vl");
    assert_eq!(convert_korean_to_english("며"), "au");
    assert_eq!(convert_korean_to_english("내"), "so");
}

#[test]
fn test_decompose_hangul() {
    let result = decompose_hangul('며');
    assert_eq!(result, vec!['ㅁ', 'ㅕ']);

    let result = decompose_hangul('피');
    assert_eq!(result, vec!['ㅍ', 'ㅣ']);
}

#[test]
fn test_non_completed() {
    assert_eq!(convert_korean_to_english("ㅍㅣ"), "vl");
    assert_eq!(convert_korean_to_english("ㅔㅞㅡ"), "pnpm");
    assert_eq!(convert_korean_to_english("ㅛㅁ구"), "yarn");
    assert_eq!(convert_korean_to_english("ㅎㄱ데"), "grep");
}

#[test]
fn empty_input_gives_empty_output() {
    assert_eq!(convert_korean_to_english(""), "");
    assert_eq!(convert_normalized(""), "");
}

#[test]
fn any_text_converts() {
    assert_eq!(convert_korean_to_english("🎉 ü ß"), "🎉 ü ß");
    assert_eq!(convert_korean_to_english("\u{0}\u{10FFFF}"), "\u{0}\u{10FFFF}");
}

#[test]
fn unmapped_characters_keep_their_place() {
    assert_eq!(convert_korean_to_english("ㅎㄱ데 -1"), "grep -1");
    assert_eq!(convert_korean_to_english("a피b"), "avlb");
    assert_eq!(convert_korean_to_english("ㆍ"), "ㆍ");
}

#[test]
fn first_and_last_syllables_decompose() {
    assert_eq!(decompose_hangul('가'), vec!['ㄱ', 'ㅏ']);
    assert_eq!(decompose_hangul('힣'), vec!['ㅎ', 'ㅣ', 'ㅎ']);
}

#[test]
fn syllable_block_bounds_are_exclusive_outside() {
    assert_eq!(decompose_hangul('\u{ABFF}'), vec!['\u{ABFF}']);
    assert_eq!(decompose_hangul('\u{D7A4}'), vec!['\u{D7A4}']);
}

#[test]
fn trailing_clusters_give_two_jamo() {
    assert_eq!(decompose_hangul('닭'), vec!['ㄷ', 'ㅏ', 'ㄹ', 'ㄱ']);
    assert_eq!(decompose_hangul('값'), vec!['ㄱ', 'ㅏ', 'ㅂ', 'ㅅ']);
    assert_eq!(convert_korean_to_english("닭"), "ekfr");
}

#[test]
fn syllable_index_formula() {
    // 각: leading 0, vowel 0, trailing 1
    assert_eq!(decompose_hangul('각'), vec!['ㄱ', 'ㅏ', 'ㄱ']);
    // U+AC00 + (18 * 21 + 20) * 28 + 27 is the last syllable
    let c = char::from_u32(0xAC00 + (18 * 21 + 20) * 28 + 27).unwrap();
    assert_eq!(c, '힣');
    // leading 7, vowel 10, trailing 9
    let c = char::from_u32(0xAC00 + (7 * 21 + 10) * 28 + 9).unwrap();
    assert_eq!(decompose_hangul(c), vec!['ㅂ', 'ㅙ', 'ㄹ', 'ㄱ']);
    assert_eq!(convert_korean_to_english(&c.to_string()), "qhofr");
    // 뷁: leading 7, vowel 15, trailing 9
    assert_eq!(convert_korean_to_english("뷁"), "qnpfr");
}

#[test]
fn normalizing_twice_changes_nothing() {
    let once: String = "피\u{1111}\u{1175}".nfc().collect();
    let twice: String = once.nfc().collect();
    assert_eq!(once, twice);
    assert_eq!(convert_korean_to_english(&once), convert_korean_to_english(&twice));
}

#[test]
fn decomposed_input_is_composed_first() {
    // conjoining jamo that canonically compose to 피
    assert_eq!(convert_korean_to_english("\u{1111}\u{1175}"), "vl");
    assert_eq!(convert_normalized("\u{1111}\u{1175}"), "\u{1111}\u{1175}");
}

#[test]
fn jamo_and_syllables_convert_alike() {
    assert_eq!(convert_korean_to_english("피"), convert_korean_to_english("ㅍㅣ"));
    assert_eq!(convert_korean_to_english("닭"), convert_korean_to_english("ㄷㅏㄹㄱ"));
    let s: Vec<char> = "쀍".chars().collect();
    let jamo = decompose_all(&s);
    assert_eq!(map_keys(&decompose_all(&jamo)), map_keys(&jamo));
}

#[test]
fn compound_vowels_and_doubled_consonants() {
    assert_eq!(convert_korean_to_english("ㅘㅙㅚㅝㅞㅟㅢ"), "hkhohlnjnpnlml");
    assert_eq!(convert_korean_to_english("ㅒㅖ"), "OP");
    assert_eq!(convert_korean_to_english("ㅃㅉㄸㄲㅆ"), "QWERT");
    assert_eq!(convert_korean_to_english("뭐"), "anj");
}

#[test]
fn keys_are_one_or_two_per_jamo() {
    let input: Vec<char> = "ㅘㅏ?ㄳ".chars().collect();
    let keys = map_keys(&input);
    assert_eq!(keys, vec!['h', 'k', 'k', '?', 'ㄳ']);
    assert!(input.len() <= keys.len() && keys.len() <= 2 * input.len());
    let mut out: Vec<char> = vec!['x'];
    push_keys('ㅢ', &mut out);
    assert_eq!(out, vec!['x', 'm', 'l']);
}
