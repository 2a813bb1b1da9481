//! The order in which model catalogues are listed: by provider, then by
//! model id, both compared character by character (the order of `str`).
use vstd::prelude::*;
use crate::text::chars_of;

verus! {

/// `a` comes no later than `b` in the lexicographic order of code points.
pub open spec fn chars_le(a: Seq<char>, b: Seq<char>) -> bool
    decreases a.len(),
{
    if a.len() == 0 {
        true
    } else if b.len() == 0 {
        false
    } else if a[0] < b[0] {
        true
    } else if a[0] > b[0] {
        false
    } else {
        chars_le(a.drop_first(), b.drop_first())
    }
}

/// Any two strings are ordered one way or the other.
pub proof fn lemma_chars_le_total(a: Seq<char>, b: Seq<char>)
    ensures
        chars_le(a, b) || chars_le(b, a),
    decreases a.len(),
{
    if a.len() > 0 && b.len() > 0 && a[0] == b[0] {
        lemma_chars_le_total(a.drop_first(), b.drop_first());
    }
}

/// The order is transitive.
pub proof fn lemma_chars_le_transitive(a: Seq<char>, b: Seq<char>, c: Seq<char>)
    requires
        chars_le(a, b),
        chars_le(b, c),
    ensures
        chars_le(a, c),
    decreases a.len(),
{
    if a.len() > 0 && b.len() > 0 && c.len() > 0 && a[0] == b[0] && b[0] == c[0] {
        lemma_chars_le_transitive(a.drop_first(), b.drop_first(), c.drop_first());
    }
}

/// Two strings ordered both ways are equal.
pub proof fn lemma_chars_le_antisymmetric(a: Seq<char>, b: Seq<char>)
    requires
        chars_le(a, b),
        chars_le(b, a),
    ensures
        a == b,
    decreases a.len(),
{
    if a.len() > 0 && b.len() > 0 {
        lemma_chars_le_antisymmetric(a.drop_first(), b.drop_first());
        assert(a[0] == b[0]);
        assert(a =~= seq![a[0]] + a.drop_first());
        assert(b =~= seq![b[0]] + b.drop_first());
    }
}

/// Every string is ordered before itself.
pub proof fn lemma_chars_le_reflexive(a: Seq<char>)
    ensures
        chars_le(a, a),
    decreases a.len(),
{
    if a.len() > 0 {
        lemma_chars_le_reflexive(a.drop_first());
    }
}

/// Compares two strings in the order of `str`.
pub fn chars_le_exec(a: &Vec<char>, b: &Vec<char>) -> (r: bool)
    ensures
        r == chars_le(a@, b@),
{
    let mut i: usize = 0;
    assert(a@.skip(0) =~= a@);
    assert(b@.skip(0) =~= b@);
    while i < a.len()
        invariant
            0 <= i <= a@.len(),
            i <= b@.len(),
            chars_le(a@, b@) == chars_le(a@.skip(i as int), b@.skip(i as int)),
        decreases a@.len() - i,
    {
        if i >= b.len() {
            return false;
        }
        let x = a[i];
        let y = b[i];
        assert(a@.skip(i as int)[0] == a@[i as int]);
        assert(b@.skip(i as int)[0] == b@[i as int]);
        if x < y {
            return true;
        }
        if x > y {
            return false;
        }
        assert(a@.skip(i as int).drop_first() =~= a@.skip(i + 1));
        assert(b@.skip(i as int).drop_first() =~= b@.skip(i + 1));
        i = i + 1;
    }
    true
}

/// The sort key of a catalogue entry: its provider, then its model id.
pub open spec fn key_le(a: (Seq<char>, Seq<char>), b: (Seq<char>, Seq<char>)) -> bool {
    if a.0 == b.0 {
        chars_le(a.1, b.1)
    } else {
        chars_le(a.0, b.0)
    }
}

/// Keys are totally ordered.
pub proof fn lemma_key_le_total(a: (Seq<char>, Seq<char>), b: (Seq<char>, Seq<char>))
    ensures
        key_le(a, b) || key_le(b, a),
{
    lemma_chars_le_total(a.0, b.0);
    lemma_chars_le_total(a.1, b.1);
}

/// The key order is transitive.
pub proof fn lemma_key_le_transitive(
    a: (Seq<char>, Seq<char>),
    b: (Seq<char>, Seq<char>),
    c: (Seq<char>, Seq<char>),
)
    requires
        key_le(a, b),
        key_le(b, c),
    ensures
        key_le(a, c),
{
    if a.0 == b.0 && b.0 == c.0 {
        lemma_chars_le_transitive(a.1, b.1, c.1);
    } else if a.0 == b.0 {
        assert(chars_le(b.0, c.0));
    } else if b.0 == c.0 {
        assert(chars_le(a.0, b.0));
    } else {
        lemma_chars_le_transitive(a.0, b.0, c.0);
        if a.0 == c.0 {
            lemma_chars_le_antisymmetric(a.0, b.0);
        }
    }
}

/// A sequence of keys in non-decreasing order.
pub open spec fn keys_sorted(s: Seq<(Seq<char>, Seq<char>)>) -> bool {
    forall|i: int, j: int| 0 <= i < j < s.len() ==> key_le(#[trigger] s[i], #[trigger] s[j])
}

/// Whether the key `(p1, i1)` sorts no later than `(p2, i2)`.
pub fn key_le_exec(p1: &str, i1: &str, p2: &str, i2: &str) -> (r: bool)
    ensures
        r == key_le((p1@, i1@), (p2@, i2@)),
{
    let a = chars_of(p1);
    let b = chars_of(p2);
    let ab = chars_le_exec(&a, &b);
    let ba = chars_le_exec(&b, &a);
    if ab && ba {
        proof {
            lemma_chars_le_antisymmetric(a@, b@);
        }
        let x = chars_of(i1);
        let y = chars_of(i2);
        chars_le_exec(&x, &y)
    } else {
        proof {
            if a@ == b@ {
                lemma_chars_le_reflexive(a@);
            }
        }
        ab
    }
}

} // verus!
