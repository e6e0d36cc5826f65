//! Small executable helpers on strings and characters that the rest of the
//! library builds on: character-exact string equality and copying a single
//! character onto the end of a `String`.

use vstd::prelude::*;

verus! {

/// Compares two string slices character by character.
pub fn str_eq(a: &str, b: &str) -> (r: bool)
    ensures
        r == (a@ == b@),
{
    let alen = a.unicode_len();
    let blen = b.unicode_len();
    if alen != blen {
        assert(a@ != b@) by {
            assert(a@.len() != b@.len());
        }
        return false;
    }
    let mut i: usize = 0;
    while i < alen
        invariant
            alen == a@.len(),
            alen == b@.len(),
            i <= alen,
            forall|j: int| 0 <= j < i ==> a@[j] == b@[j],
        decreases alen - i,
    {
        if a.get_char(i) != b.get_char(i) {
            assert(a@ != b@);
            return false;
        }
        i += 1;
    }
    assert(a@ =~= b@);
    true
}

/// Appends the character at index `i` of `s` onto `out`.
pub fn push_char_from(out: &mut String, s: &str, i: usize)
    requires
        i < s@.len(),
        s@.len() <= usize::MAX,
    ensures
        final(out)@ == old(out)@ + seq![s@[i as int]],
{
    let piece = s.substring_char(i, i + 1);
    out.append(piece);
    assert(piece@ =~= seq![s@[i as int]]);
    assert(out@ =~= old(out)@ + seq![s@[i as int]]);
}

} // verus!
