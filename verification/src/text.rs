//! Tests on texts: the shape of a time, and how a text begins.

use crate::ledger::text_le;
use vstd::prelude::*;

verus! {

/// The character that the place `i` of a time takes: `-` at 4 and 7, a blank
/// at 10, `:` at 13 and 16, and a digit everywhere else.
pub open spec fn fits_timestamp(i: int, c: char) -> bool {
    if i == 4 || i == 7 {
        c == '-'
    } else if i == 10 {
        c == ' '
    } else if i == 13 || i == 16 {
        c == ':'
    } else {
        48 <= c as u32 <= 57
    }
}

/// A text in the shape `YYYY-MM-DD HH:MM:SS`: 19 characters, the separators
/// in their places and digits elsewhere.
pub open spec fn timestamp_shaped(s: Seq<char>) -> bool {
    s.len() == 19 && forall|i: int| 0 <= i < 19 ==> fits_timestamp(i, #[trigger] s[i])
}

/// Whether a text has the shape `YYYY-MM-DD HH:MM:SS`.
pub fn is_timestamp(text: &str) -> (b: bool)
    ensures
        b == timestamp_shaped(text@),
{
    if text.unicode_len() != 19 {
        return false;
    }
    let mut i: usize = 0;
    while i < 19
        invariant
            i <= 19,
            text@.len() == 19,
            forall|j: int| 0 <= j < i ==> fits_timestamp(j, #[trigger] text@[j]),
        decreases 19 - i,
    {
        let c = text.get_char(i);
        let fits = if i == 4 || i == 7 {
            c == '-'
        } else if i == 10 {
            c == ' '
        } else if i == 13 || i == 16 {
            c == ':'
        } else {
            48 <= c as u32 && c as u32 <= 57
        };
        if !fits {
            assert(!fits_timestamp(i as int, text@[i as int]));
            return false;
        }
        i += 1;
    }
    true
}

/// `text` begins with `prefix`.
pub open spec fn begins_with(text: Seq<char>, prefix: Seq<char>) -> bool {
    prefix.len() <= text.len() && forall|i: int| 0 <= i < prefix.len() ==> #[trigger] text[i] == prefix[i]
}

/// Whether `text` begins with `prefix`.
pub fn starts_with(text: &str, prefix: &str) -> (b: bool)
    ensures
        b == begins_with(text@, prefix@),
{
    let n = prefix.unicode_len();
    if text.unicode_len() < n {
        return false;
    }
    let mut i: usize = 0;
    while i < n
        invariant
            i <= n,
            n == prefix@.len(),
            n <= text@.len(),
            forall|j: int| 0 <= j < i ==> #[trigger] text@[j] == prefix@[j],
        decreases n - i,
    {
        if text.get_char(i) != prefix.get_char(i) {
            return false;
        }
        i += 1;
    }
    true
}

/// Two texts compare as what is left of them does once an equal first
/// character is taken from each.
pub proof fn lemma_text_le_skips(a: Seq<char>, b: Seq<char>, i: int)
    requires
        0 <= i <= a.len(),
        i <= b.len(),
        forall|j: int| 0 <= j < i ==> a[j] == b[j],
    ensures
        text_le(a, b) == text_le(a.skip(i), b.skip(i)),
    decreases i,
{
    if i == 0 {
        assert(a.skip(0) =~= a);
        assert(b.skip(0) =~= b);
    } else {
        lemma_text_le_skips(a, b, i - 1);
        let x = a.skip(i - 1);
        let y = b.skip(i - 1);
        assert(x[0] == a[i - 1]);
        assert(y[0] == b[i - 1]);
        assert(x.drop_first() =~= a.skip(i));
        assert(y.drop_first() =~= b.skip(i));
    }
}

/// Whether `a` does not come after `b` in the order of texts by code
/// point.
pub fn text_not_after(a: &str, b: &str) -> (r: bool)
    ensures
        r == text_le(a@, b@),
{
    let n = a.unicode_len();
    let m = b.unicode_len();
    let mut i: usize = 0;
    while i < n && i < m
        invariant
            i <= n,
            i <= m,
            n == a@.len(),
            m == b@.len(),
            forall|j: int| 0 <= j < i ==> a@[j] == b@[j],
        decreases n - i,
    {
        let x = a.get_char(i);
        let y = b.get_char(i);
        if x != y {
            proof {
                lemma_text_le_skips(a@, b@, i as int);
                assert(a@.skip(i as int)[0] == x);
                assert(b@.skip(i as int)[0] == y);
            }
            return (x as u32) < (y as u32);
        }
        i += 1;
    }
    proof {
        lemma_text_le_skips(a@, b@, i as int);
    }
    i == n
}

/// No text comes after itself.
pub proof fn lemma_text_le_reflexive(a: Seq<char>)
    ensures
        text_le(a, a),
    decreases a.len(),
{
    if a.len() > 0 {
        lemma_text_le_reflexive(a.drop_first());
    }
}

/// The order of texts is transitive.
pub proof fn lemma_text_le_transitive(a: Seq<char>, b: Seq<char>, c: Seq<char>)
    requires
        text_le(a, b),
        text_le(b, c),
    ensures
        text_le(a, c),
    decreases a.len(),
{
    if a.len() > 0 && b.len() > 0 && c.len() > 0 {
        if a[0] == b[0] && b[0] == c[0] {
            lemma_text_le_transitive(a.drop_first(), b.drop_first(), c.drop_first());
        }
    }
}

/// Two texts of which neither comes after the other are the same text.
pub proof fn lemma_text_le_antisymmetric(a: Seq<char>, b: Seq<char>)
    requires
        text_le(a, b),
        text_le(b, a),
    ensures
        a == b,
    decreases a.len(),
{
    if a.len() > 0 && b.len() > 0 {
        lemma_text_le_antisymmetric(a.drop_first(), b.drop_first());
        assert(a =~= seq![a[0]] + a.drop_first());
        assert(b =~= seq![b[0]] + b.drop_first());
    } else {
        assert(a =~= b);
    }
}

} // verus!
