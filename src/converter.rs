//! The conversion pipeline: normalize, decompose every code point, map every
//! jamo to its keys.
use vstd::prelude::*;
use unicode_normalization::UnicodeNormalization;
use crate::hangul::{decompose_hangul, decomposition, is_syllable, lemma_decomposition_is_jamo};
use crate::keymap::{key_table, keys_for, lemma_keys_for_len, push_keys};

verus! {

/// The canonical composition (NFC) of a text, as unicode-normalization
/// computes it.
pub uninterp spec fn nfc_of(s: Seq<char>) -> Seq<char>;

/// Relies on `UnicodeNormalization::nfc` of unicode-normalization: the NFC
/// form of `s`, which depends on the characters of `s` alone.
#[verifier::external_body]
fn nfc(s: &str) -> (r: String)
    ensures
        r@ == nfc_of(s@),
{
    s.nfc().collect::<String>()
}

/// The characters of `s`, in order.
fn chars_of(s: &str) -> (r: Vec<char>)
    ensures
        r@ == s@,
{
    let mut out: Vec<char> = Vec::new();
    for c in it: s.chars()
        invariant
            it.seq() == s@,
            out@ == s@.take(it.index() as int),
    {
        out.push(c);
        assert(s@.take(it.index() as int + 1) =~= out@);
    }
    assert(out@ =~= s@);
    out
}

/// Relies on `String: FromIterator<char>`: the string made of `v`'s characters, in order.
#[verifier::external_body]
fn string_of(v: &Vec<char>) -> (r: String)
    ensures
        r@ == v@,
{
    v.iter().collect::<String>()
}

/// `f` applied to each element of `s`, the results joined in order.
pub open spec fn flat_map(s: Seq<char>, f: spec_fn(char) -> Seq<char>) -> Seq<char>
    decreases s.len(),
{
    if s.len() == 0 {
        Seq::empty()
    } else {
        flat_map(s.drop_last(), f) + f(s.last())
    }
}

/// Every code point of `s` decomposed, in order.
pub open spec fn expand(s: Seq<char>) -> Seq<char> {
    flat_map(s, |c: char| decomposition(c))
}

/// Every character of `s` replaced by its keys, in order.
pub open spec fn key_sequence(s: Seq<char>) -> Seq<char> {
    flat_map(s, |c: char| keys_for(c))
}

/// What the pipeline gives for a text that is already normalized.
pub open spec fn converted(s: Seq<char>) -> Seq<char> {
    key_sequence(expand(s))
}

/// What the pipeline gives for any text.
pub open spec fn convert_spec(s: Seq<char>) -> Seq<char> {
    converted(nfc_of(s))
}

/// Mapping a concatenation is concatenating the mapped parts.
pub proof fn lemma_flat_map_append(a: Seq<char>, b: Seq<char>, f: spec_fn(char) -> Seq<char>)
    ensures
        flat_map(a + b, f) == flat_map(a, f) + flat_map(b, f),
    decreases b.len(),
{
    if b.len() == 0 {
        assert(a + b =~= a);
        assert(flat_map(a, f) + flat_map(b, f) =~= flat_map(a, f));
    } else {
        assert((a + b).drop_last() =~= a + b.drop_last());
        lemma_flat_map_append(a, b.drop_last(), f);
        assert(flat_map(a + b, f) =~= flat_map(a, f) + flat_map(b, f));
    }
}

/// `f` applied to a single element.
pub proof fn lemma_flat_map_single(c: char, f: spec_fn(char) -> Seq<char>)
    ensures
        flat_map(seq![c], f) == f(c),
{
    assert(seq![c].drop_last() =~= Seq::<char>::empty());
    assert(flat_map(Seq::<char>::empty(), f) + f(c) =~= f(c));
}

/// Converting a concatenation of normalized texts is concatenating their
/// conversions.
pub proof fn lemma_converted_append(a: Seq<char>, b: Seq<char>)
    ensures
        converted(a + b) == converted(a) + converted(b),
{
    lemma_flat_map_append(a, b, |c: char| decomposition(c));
    lemma_flat_map_append(expand(a), expand(b), |c: char| keys_for(c));
}

/// A character that is neither a syllable nor in the key table comes out of
/// the pipeline unchanged, at the place of its input.
pub proof fn lemma_passthrough(pre: Seq<char>, c: char, post: Seq<char>)
    requires
        !is_syllable(c),
        key_table(c) is None,
    ensures
        converted(pre.push(c) + post) == converted(pre) + seq![c] + converted(post),
{
    assert(pre.push(c) =~= pre + seq![c]);
    lemma_converted_append(pre + seq![c], post);
    lemma_converted_append(pre, seq![c]);
    lemma_flat_map_single(c, |c: char| decomposition(c));
    lemma_flat_map_single(c, |c: char| keys_for(c));
}

/// A text with no syllable in it is left as it is by decomposition.
pub proof fn lemma_expand_without_syllables(t: Seq<char>)
    requires
        forall|k: int| 0 <= k < t.len() ==> !is_syllable(#[trigger] t[k]),
    ensures
        expand(t) == t,
    decreases t.len(),
{
    if t.len() > 0 {
        lemma_expand_without_syllables(t.drop_last());
        assert(t.drop_last() + seq![t.last()] =~= t);
    }
}

/// Decomposition leaves no syllable behind.
pub proof fn lemma_expand_has_no_syllables(s: Seq<char>)
    ensures
        forall|k: int| 0 <= k < expand(s).len() ==> !is_syllable(#[trigger] expand(s)[k]),
    decreases s.len(),
{
    if s.len() > 0 {
        lemma_expand_has_no_syllables(s.drop_last());
        lemma_decomposition_is_jamo(s.last());
        let e = expand(s.drop_last());
        let d = decomposition(s.last());
        assert forall|k: int| 0 <= k < expand(s).len() implies !is_syllable(#[trigger] expand(s)[k]) by {
            if k >= e.len() {
                assert(expand(s)[k] == d[k - e.len()]);
            } else {
                assert(expand(s)[k] == e[k]);
            }
        }
    }
}

/// Converting a text given as separate jamo gives what converting the
/// syllables they decompose from gives.
pub proof fn lemma_jamo_input_equivalence(s: Seq<char>)
    ensures
        converted(expand(s)) == converted(s),
{
    lemma_expand_has_no_syllables(s);
    lemma_expand_without_syllables(expand(s));
}

/// The keys for a text are at least one and at most two per character.
pub proof fn lemma_key_sequence_len(s: Seq<char>)
    ensures
        s.len() <= key_sequence(s).len() <= 2 * s.len(),
    decreases s.len(),
{
    if s.len() > 0 {
        lemma_key_sequence_len(s.drop_last());
        lemma_keys_for_len(s.last());
    }
}

/// Decomposes every code point of `s` and joins the results in order.
pub fn decompose_all(s: &Vec<char>) -> (r: Vec<char>)
    ensures
        r@ == expand(s@),
{
    let mut out: Vec<char> = Vec::new();
    let n: usize = s.len();
    for i in 0..n
        invariant
            n == s@.len(),
            out@ == expand(s@.subrange(0, i as int)),
    {
        let mut d = decompose_hangul(s[i]);
        out.append(&mut d);
        assert(s@.subrange(0, i + 1).drop_last() =~= s@.subrange(0, i as int));
    }
    assert(s@.subrange(0, n as int) =~= s@);
    out
}

/// Replaces every character of `s` by its keys and joins the results in order.
pub fn map_keys(s: &Vec<char>) -> (r: Vec<char>)
    ensures
        r@ == key_sequence(s@),
{
    let mut out: Vec<char> = Vec::new();
    let n: usize = s.len();
    for i in 0..n
        invariant
            n == s@.len(),
            out@ == key_sequence(s@.subrange(0, i as int)),
    {
        push_keys(s[i], &mut out);
        assert(s@.subrange(0, i + 1).drop_last() =~= s@.subrange(0, i as int));
    }
    assert(s@.subrange(0, n as int) =~= s@);
    out
}

/// Converts a text that is already in NFC: decomposes it and maps the result
/// to keys.
pub fn convert_normalized(normalized: &str) -> (r: String)
    ensures
        r@ == converted(normalized@),
{
    let chars = chars_of(normalized);
    let jamo = decompose_all(&chars);
    let keys = map_keys(&jamo);
    string_of(&keys)
}

/// Converts text typed with the Korean two-set layout into the English keys
/// that were pressed. Total: every text gives a result.
pub fn convert_korean_to_english(korean_input: &str) -> (r: String)
    ensures
        r@ == convert_spec(korean_input@),
{
    let normalized = nfc(korean_input);
    convert_normalized(normalized.as_str())
}

} // verus!
