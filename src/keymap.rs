//! The keys of the two-set Korean layout that produce each jamo.
use vstd::prelude::*;

verus! {

/// The English keys pressed to type jamo `c` on the two-set layout, for the
/// jamo that the layout reaches; `None` for every other character.
pub open spec fn key_table(c: char) -> Option<Seq<char>> {
    match c {
        // plain consonants and vowels, one key each
        'ㅂ' => Some(seq!['q']),
        'ㅈ' => Some(seq!['w']),
        'ㄷ' => Some(seq!['e']),
        'ㄱ' => Some(seq!['r']),
        'ㅅ' => Some(seq!['t']),
        'ㅛ' => Some(seq!['y']),
        'ㅕ' => Some(seq!['u']),
        'ㅑ' => Some(seq!['i']),
        'ㅐ' => Some(seq!['o']),
        'ㅔ' => Some(seq!['p']),
        'ㅁ' => Some(seq!['a']),
        'ㄴ' => Some(seq!['s']),
        'ㅇ' => Some(seq!['d']),
        'ㄹ' => Some(seq!['f']),
        'ㅎ' => Some(seq!['g']),
        'ㅗ' => Some(seq!['h']),
        'ㅓ' => Some(seq!['j']),
        'ㅏ' => Some(seq!['k']),
        'ㅣ' => Some(seq!['l']),
        'ㅋ' => Some(seq!['z']),
        'ㅌ' => Some(seq!['x']),
        'ㅊ' => Some(seq!['c']),
        'ㅍ' => Some(seq!['v']),
        'ㅠ' => Some(seq!['b']),
        'ㅜ' => Some(seq!['n']),
        'ㅡ' => Some(seq!['m']),
        // doubled consonants, the shifted key
        'ㅃ' => Some(seq!['Q']),
        'ㅉ' => Some(seq!['W']),
        'ㄸ' => Some(seq!['E']),
        'ㄲ' => Some(seq!['R']),
        'ㅆ' => Some(seq!['T']),
        // compound vowels on a shifted key
        'ㅒ' => Some(seq!['O']),
        'ㅖ' => Some(seq!['P']),
        // compound vowels typed as two keys
        'ㅘ' => Some(seq!['h', 'k']),
        'ㅙ' => Some(seq!['h', 'o']),
        'ㅚ' => Some(seq!['h', 'l']),
        'ㅝ' => Some(seq!['n', 'j']),
        'ㅞ' => Some(seq!['n', 'p']),
        'ㅟ' => Some(seq!['n', 'l']),
        'ㅢ' => Some(seq!['m', 'l']),
        _ => None,
    }
}

/// What the key mapper emits for one character: its keys, or the character
/// itself where the table has no entry.
pub open spec fn keys_for(c: char) -> Seq<char> {
    match key_table(c) {
        Some(keys) => keys,
        None => seq![c],
    }
}

/// Every entry of the table is one or two keys.
pub proof fn lemma_keys_for_len(c: char)
    ensures
        1 <= keys_for(c).len() <= 2,
{
}

/// Appends to `out` the keys that produce `c`, or `c` itself where the table
/// has no entry for it.
pub fn push_keys(c: char, out: &mut Vec<char>)
    ensures
        final(out)@ == old(out)@ + keys_for(c),
{
    match c {
        // plain consonants and vowels, one key each
        'ㅂ' => { out.push('q'); }
        'ㅈ' => { out.push('w'); }
        'ㄷ' => { out.push('e'); }
        'ㄱ' => { out.push('r'); }
        'ㅅ' => { out.push('t'); }
        'ㅛ' => { out.push('y'); }
        'ㅕ' => { out.push('u'); }
        'ㅑ' => { out.push('i'); }
        'ㅐ' => { out.push('o'); }
        'ㅔ' => { out.push('p'); }
        'ㅁ' => { out.push('a'); }
        'ㄴ' => { out.push('s'); }
        'ㅇ' => { out.push('d'); }
        'ㄹ' => { out.push('f'); }
        'ㅎ' => { out.push('g'); }
        'ㅗ' => { out.push('h'); }
        'ㅓ' => { out.push('j'); }
        'ㅏ' => { out.push('k'); }
        'ㅣ' => { out.push('l'); }
        'ㅋ' => { out.push('z'); }
        'ㅌ' => { out.push('x'); }
        'ㅊ' => { out.push('c'); }
        'ㅍ' => { out.push('v'); }
        'ㅠ' => { out.push('b'); }
        'ㅜ' => { out.push('n'); }
        'ㅡ' => { out.push('m'); }
        // doubled consonants, the shifted key
        'ㅃ' => { out.push('Q'); }
        'ㅉ' => { out.push('W'); }
        'ㄸ' => { out.push('E'); }
        'ㄲ' => { out.push('R'); }
        'ㅆ' => { out.push('T'); }
        // compound vowels on a shifted key
        'ㅒ' => { out.push('O'); }
        'ㅖ' => { out.push('P'); }
        // compound vowels typed as two keys
        'ㅘ' => { out.push('h'); out.push('k'); }
        'ㅙ' => { out.push('h'); out.push('o'); }
        'ㅚ' => { out.push('h'); out.push('l'); }
        'ㅝ' => { out.push('n'); out.push('j'); }
        'ㅞ' => { out.push('n'); out.push('p'); }
        'ㅟ' => { out.push('n'); out.push('l'); }
        'ㅢ' => { out.push('m'); out.push('l'); }
        _ => { out.push(c); }
    }
}

} // verus!
