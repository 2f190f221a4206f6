//! Character-level comparisons of text.

use vstd::prelude::*;

verus! {

/// `a` orders strictly before `b`, comparing characters one by one and
/// putting a proper prefix first.
pub open spec fn chars_before(a: Seq<char>, b: Seq<char>) -> bool
    decreases a.len(),
{
    if b.len() == 0 {
        false
    } else if a.len() == 0 {
        true
    } else if a[0] != b[0] {
        (a[0] as int) < (b[0] as int)
    } else {
        chars_before(a.drop_first(), b.drop_first())
    }
}

/// Whether two strings hold the same characters.
pub fn text_equals(a: &str, b: &str) -> (r: bool)
    ensures
        r == (a@ == b@),
{
    let n = a.unicode_len();
    if n != b.unicode_len() {
        return false;
    }
    let mut i: usize = 0;
    while i < n
        invariant
            n == a@.len() == b@.len(),
            0 <= i <= n,
            forall|j: int| 0 <= j < i ==> a@[j] == b@[j],
        decreases n - i,
    {
        if a.get_char(i) != b.get_char(i) {
            return false;
        }
        i = i + 1;
    }
    assert(a@ =~= b@);
    true
}


/// Whether `a` orders strictly before `b`.
pub fn text_before(a: &str, b: &str) -> (r: bool)
    ensures
        r == chars_before(a@, b@),
{
    let na = a.unicode_len();
    let nb = b.unicode_len();
    let mut i: usize = 0;
    proof {
        assert(a@.skip(0) =~= a@);
        assert(b@.skip(0) =~= b@);
    }
    while i < na && i < nb
        invariant
            na == a@.len(),
            nb == b@.len(),
            0 <= i <= na,
            i <= nb,
            forall|j: int| 0 <= j < i ==> a@[j] == b@[j],
            chars_before(a@, b@) == chars_before(a@.skip(i as int), b@.skip(i as int)),
        decreases na - i,
    {
        let ca = a.get_char(i);
        let cb = b.get_char(i);
        if ca != cb {
            proof {
                assert(a@.skip(i as int)[0] == ca);
                assert(b@.skip(i as int)[0] == cb);
            }
            return (ca as u32) < (cb as u32);
        }
        proof {
            assert(a@.skip(i as int).drop_first() =~= a@.skip(i + 1));
            assert(b@.skip(i as int).drop_first() =~= b@.skip(i + 1));
        }
        i = i + 1;
    }
    i < nb
}

/// No text orders before itself.
pub proof fn lemma_chars_before_irreflexive(a: Seq<char>)
    ensures
        !chars_before(a, a),
    decreases a.len(),
{
    if a.len() > 0 {
        lemma_chars_before_irreflexive(a.drop_first());
    }
}

/// The order is transitive.
pub proof fn lemma_chars_before_transitive(a: Seq<char>, b: Seq<char>, c: Seq<char>)
    requires
        chars_before(a, b),
        chars_before(b, c),
    ensures
        chars_before(a, c),
    decreases a.len(),
{
    if a.len() > 0 && a[0] == b[0] && b[0] == c[0] {
        lemma_chars_before_transitive(a.drop_first(), b.drop_first(), c.drop_first());
    }
}

/// Of two different texts, one orders before the other, and not both.
pub proof fn lemma_chars_before_total(a: Seq<char>, b: Seq<char>)
    requires
        a != b,
    ensures
        chars_before(a, b) != chars_before(b, a),
    decreases a.len(),
{
    if a.len() > 0 && b.len() > 0 && a[0] == b[0] {
        assert(a.drop_first() != b.drop_first()) by {
            if a.drop_first() == b.drop_first() {
                assert(a =~= seq![a[0]] + a.drop_first());
                assert(b =~= seq![b[0]] + b.drop_first());
            }
        }
        lemma_chars_before_total(a.drop_first(), b.drop_first());
    } else if a.len() > 0 && b.len() > 0 {
        assert((a[0] as int) != (b[0] as int));
    } else if a.len() == 0 && b.len() == 0 {
        assert(a =~= b);
    }
}

} // verus!
