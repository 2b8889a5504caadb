//! Decomposition of precomposed Hangul syllables into compatibility jamo.
use vstd::prelude::*;

verus! {

/// First code point of the precomposed Hangul syllable block.
pub const SYLLABLE_BASE: u32 = 0xAC00;

/// Last code point of the precomposed Hangul syllable block.
pub const SYLLABLE_LAST: u32 = 0xD7A3;

/// Number of vowels times number of trailing slots.
pub const LEADING_STRIDE: u32 = 588;

/// Number of trailing slots, the empty one included.
pub const TRAILING_COUNT: u32 = 28;

pub open spec fn is_syllable(c: char) -> bool {
    SYLLABLE_BASE <= c as u32 <= SYLLABLE_LAST
}

/// Offset of a syllable from the start of its block.
pub open spec fn syllable_offset(c: char) -> int {
    c as u32 - SYLLABLE_BASE
}

pub open spec fn leading_index(c: char) -> int {
    syllable_offset(c) / (LEADING_STRIDE as int)
}

pub open spec fn vowel_index(c: char) -> int {
    (syllable_offset(c) % (LEADING_STRIDE as int)) / (TRAILING_COUNT as int)
}

pub open spec fn trailing_index(c: char) -> int {
    syllable_offset(c) % (TRAILING_COUNT as int)
}

/// The 19 leading consonants, in syllable-block order.
pub open spec fn leading_table() -> Seq<char> {
    seq![
        'ㄱ', 'ㄲ', 'ㄴ', 'ㄷ', 'ㄸ', 'ㄹ', 'ㅁ', 'ㅂ', 'ㅃ', 'ㅅ', 'ㅆ', 'ㅇ', 'ㅈ', 'ㅉ',
        'ㅊ', 'ㅋ', 'ㅌ', 'ㅍ', 'ㅎ',
    ]
}

/// The 21 vowels, in syllable-block order.
pub open spec fn vowel_table() -> Seq<char> {
    seq![
        'ㅏ', 'ㅐ', 'ㅑ', 'ㅒ', 'ㅓ', 'ㅔ', 'ㅕ', 'ㅖ', 'ㅗ', 'ㅘ', 'ㅙ', 'ㅚ', 'ㅛ', 'ㅜ',
        'ㅝ', 'ㅞ', 'ㅟ', 'ㅠ', 'ㅡ', 'ㅢ', 'ㅣ',
    ]
}

/// The jamo written for trailing slot `i`: nothing for slot 0, two jamo for
/// the consonant clusters, one jamo otherwise.
pub open spec fn trailing_jamo(i: int) -> Seq<char> {
    if i == 1 { seq!['ㄱ'] }
    else if i == 2 { seq!['ㄲ'] }
    else if i == 3 { seq!['ㄱ', 'ㅅ'] }
    else if i == 4 { seq!['ㄴ'] }
    else if i == 5 { seq!['ㄴ', 'ㅈ'] }
    else if i == 6 { seq!['ㄴ', 'ㅎ'] }
    else if i == 7 { seq!['ㄷ'] }
    else if i == 8 { seq!['ㄹ'] }
    else if i == 9 { seq!['ㄹ', 'ㄱ'] }
    else if i == 10 { seq!['ㄹ', 'ㅁ'] }
    else if i == 11 { seq!['ㄹ', 'ㅂ'] }
    else if i == 12 { seq!['ㄹ', 'ㅅ'] }
    else if i == 13 { seq!['ㄹ', 'ㅌ'] }
    else if i == 14 { seq!['ㄹ', 'ㅍ'] }
    else if i == 15 { seq!['ㄹ', 'ㅎ'] }
    else if i == 16 { seq!['ㅁ'] }
    else if i == 17 { seq!['ㅂ'] }
    else if i == 18 { seq!['ㅂ', 'ㅅ'] }
    else if i == 19 { seq!['ㅅ'] }
    else if i == 20 { seq!['ㅆ'] }
    else if i == 21 { seq!['ㅇ'] }
    else if i == 22 { seq!['ㅈ'] }
    else if i == 23 { seq!['ㅊ'] }
    else if i == 24 { seq!['ㅋ'] }
    else if i == 25 { seq!['ㅌ'] }
    else if i == 26 { seq!['ㅍ'] }
    else if i == 27 { seq!['ㅎ'] }
    else { seq![] }
}

/// What the decomposer emits for one code point.
pub open spec fn decomposition(c: char) -> Seq<char> {
    if is_syllable(c) {
        seq![leading_table()[leading_index(c)], vowel_table()[vowel_index(c)]]
            + trailing_jamo(trailing_index(c))
    } else {
        seq![c]
    }
}

/// The three indices of a syllable lie in their tables, and recombining them
/// by the mixed-radix formula gives back the syllable's offset.
pub proof fn lemma_syllable_indices(c: char)
    requires
        is_syllable(c),
    ensures
        0 <= leading_index(c) < 19,
        0 <= vowel_index(c) < 21,
        0 <= trailing_index(c) < 28,
        (leading_index(c) * 21 + vowel_index(c)) * 28 + trailing_index(c) == syllable_offset(c),
{
    let b = syllable_offset(c);
    assert(0 <= b < 11172);
    assert((b / 588 * 21 + (b % 588) / 28) * 28 + b % 28 == b) by (nonlinear_arith)
        requires 0 <= b;
    assert(b / 588 < 19) by (nonlinear_arith)
        requires 0 <= b < 11172;
    assert((b % 588) / 28 < 21) by (nonlinear_arith)
        requires 0 <= b;
}

/// Each trailing slot but the empty one gives one or two jamo, none of which
/// is a syllable.
pub proof fn lemma_trailing_jamo(i: int)
    ensures
        (i <= 0 || 28 <= i) ==> trailing_jamo(i).len() == 0,
        1 <= i < 28 ==> 1 <= trailing_jamo(i).len() <= 2,
        forall|k: int| 0 <= k < trailing_jamo(i).len() ==> !is_syllable(#[trigger] trailing_jamo(i)[k]),
{
}

/// Nothing that the decomposer emits is itself a syllable, and it emits one
/// to four code points.
pub proof fn lemma_decomposition_is_jamo(c: char)
    ensures
        1 <= decomposition(c).len() <= 4,
        forall|k: int| 0 <= k < decomposition(c).len() ==> !is_syllable(#[trigger] decomposition(c)[k]),
{
    if is_syllable(c) {
        lemma_syllable_indices(c);
        lemma_trailing_jamo(trailing_index(c));
        let l = leading_table();
        let v = vowel_table();
        assert(forall|k: int| 0 <= k < 19 ==> !is_syllable(#[trigger] l[k]));
        assert(forall|k: int| 0 <= k < 21 ==> !is_syllable(#[trigger] v[k]));
        let d = decomposition(c);
        let t = trailing_jamo(trailing_index(c));
        assert(d.len() == 2 + t.len());
        assert forall|k: int| 0 <= k < d.len() implies !is_syllable(#[trigger] d[k]) by {
            if k >= 2 {
                assert(d[k] == t[k - 2]);
            }
        }
    }
}

/// Appends the jamo of trailing slot `idx` to `out`.
fn push_trailing(idx: u32, out: &mut Vec<char>)
    requires
        idx < 28,
    ensures
        final(out)@ == old(out)@ + trailing_jamo(idx as int),
{
    match idx {
        1 => { out.push('ㄱ'); }
        2 => { out.push('ㄲ'); }
        3 => { out.push('ㄱ'); out.push('ㅅ'); }
        4 => { out.push('ㄴ'); }
        5 => { out.push('ㄴ'); out.push('ㅈ'); }
        6 => { out.push('ㄴ'); out.push('ㅎ'); }
        7 => { out.push('ㄷ'); }
        8 => { out.push('ㄹ'); }
        9 => { out.push('ㄹ'); out.push('ㄱ'); }
        10 => { out.push('ㄹ'); out.push('ㅁ'); }
        11 => { out.push('ㄹ'); out.push('ㅂ'); }
        12 => { out.push('ㄹ'); out.push('ㅅ'); }
        13 => { out.push('ㄹ'); out.push('ㅌ'); }
        14 => { out.push('ㄹ'); out.push('ㅍ'); }
        15 => { out.push('ㄹ'); out.push('ㅎ'); }
        16 => { out.push('ㅁ'); }
        17 => { out.push('ㅂ'); }
        18 => { out.push('ㅂ'); out.push('ㅅ'); }
        19 => { out.push('ㅅ'); }
        20 => { out.push('ㅆ'); }
        21 => { out.push('ㅇ'); }
        22 => { out.push('ㅈ'); }
        23 => { out.push('ㅊ'); }
        24 => { out.push('ㅋ'); }
        25 => { out.push('ㅌ'); }
        26 => { out.push('ㅍ'); }
        27 => { out.push('ㅎ'); }
        _ => {}
    }
}

/// Splits a precomposed syllable into its leading consonant, its vowel and
/// the jamo of its trailing consonant, if any; any other code point comes
/// back alone.
pub fn decompose_hangul(ch: char) -> (r: Vec<char>)
    ensures
        r@ == decomposition(ch),
        !is_syllable(ch) ==> r@.len() == 1,
        is_syllable(ch) && trailing_index(ch) == 0 ==> r@.len() == 2,
        is_syllable(ch) && trailing_index(ch) != 0 ==> 3 <= r@.len() <= 4,
{
    let code = ch as u32;
    if SYLLABLE_BASE <= code && code <= SYLLABLE_LAST {
        let base: u32 = code - SYLLABLE_BASE;
        let leading_idx: u32 = base / LEADING_STRIDE;
        let vowel_idx: u32 = (base % LEADING_STRIDE) / TRAILING_COUNT;
        let trailing_idx: u32 = base % TRAILING_COUNT;
        proof {
            lemma_syllable_indices(ch);
        }
        let leading: [char; 19] = [
            'ㄱ', 'ㄲ', 'ㄴ', 'ㄷ', 'ㄸ', 'ㄹ', 'ㅁ', 'ㅂ', 'ㅃ', 'ㅅ', 'ㅆ', 'ㅇ', 'ㅈ', 'ㅉ',
            'ㅊ', 'ㅋ', 'ㅌ', 'ㅍ', 'ㅎ',
        ];
        let vowels: [char; 21] = [
            'ㅏ', 'ㅐ', 'ㅑ', 'ㅒ', 'ㅓ', 'ㅔ', 'ㅕ', 'ㅖ', 'ㅗ', 'ㅘ', 'ㅙ', 'ㅚ', 'ㅛ', 'ㅜ',
            'ㅝ', 'ㅞ', 'ㅟ', 'ㅠ', 'ㅡ', 'ㅢ', 'ㅣ',
        ];
        assert(leading@ =~= leading_table());
        assert(vowels@ =~= vowel_table());
        let mut result: Vec<char> = Vec::new();
        result.push(leading[leading_idx as usize]);
        result.push(vowels[vowel_idx as usize]);
        proof {
            lemma_trailing_jamo(trailing_idx as int);
        }
        if trailing_idx > 0 {
            push_trailing(trailing_idx, &mut result);
        }
        assert(result@ =~= decomposition(ch));
        result
    } else {
        let mut result: Vec<char> = Vec::new();
        result.push(ch);
        assert(result@ =~= decomposition(ch));
        result
    }
}

} // verus!
