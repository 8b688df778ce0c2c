//! Lexicographic ordering on character sequences, and a generic verified
//! insertion sort used by the listing operations of the store.

use vstd::prelude::*;

verus! {

/// Lexicographic "less or equal" on character sequences, by code point.
pub open spec fn lex_le(a: Seq<char>, b: Seq<char>) -> bool
    decreases a.len(),
{
    if a.len() == 0 {
        true
    } else if b.len() == 0 {
        false
    } else if a[0] != b[0] {
        (a[0] as u32) < (b[0] as u32)
    } else {
        lex_le(a.skip(1), b.skip(1))
    }
}

pub proof fn lemma_lex_total(a: Seq<char>, b: Seq<char>)
    ensures
        lex_le(a, b) || lex_le(b, a),
    decreases a.len(),
{
    if a.len() != 0 && b.len() != 0 {
        if a[0] == b[0] {
            lemma_lex_total(a.skip(1), b.skip(1));
        } else {
            vstd::utf8::char_u32_cast(a[0], a[0] as u32);
            vstd::utf8::char_u32_cast(b[0], b[0] as u32);
        }
    }
}

pub proof fn lemma_lex_trans(a: Seq<char>, b: Seq<char>, c: Seq<char>)
    requires
        lex_le(a, b),
        lex_le(b, c),
    ensures
        lex_le(a, c),
    decreases a.len(),
{
    if a.len() != 0 && b.len() != 0 && c.len() != 0 && a[0] == b[0] && b[0] == c[0] {
        lemma_lex_trans(a.skip(1), b.skip(1), c.skip(1));
    }
}

pub proof fn lemma_lex_antisymm(a: Seq<char>, b: Seq<char>)
    requires
        lex_le(a, b),
        lex_le(b, a),
    ensures
        a == b,
    decreases a.len(),
{
    if a.len() != 0 && b.len() != 0 && a[0] == b[0] {
        lemma_lex_antisymm(a.skip(1), b.skip(1));
        assert(a =~= seq![a[0]] + a.skip(1));
        assert(b =~= seq![b[0]] + b.skip(1));
    }
}

/// Compare two strings lexicographically by code point.
pub fn str_lex_le(a: &str, b: &str) -> (r: bool)
    ensures
        r == lex_le(a@, b@),
{
    let a_len = a.unicode_len();
    let b_len = b.unicode_len();
    let min: usize = if a_len < b_len {
        a_len
    } else {
        b_len
    };
    let mut i: usize = 0;
    proof {
        assert(a@.skip(0) =~= a@);
        assert(b@.skip(0) =~= b@);
    }
    while i < min
        invariant
            0 <= i <= min,
            min <= a_len && min <= b_len,
            a_len == a@.len() && b_len == b@.len(),
            min == if a_len < b_len {
                a_len as int
            } else {
                b_len as int
            },
            lex_le(a@, b@) == lex_le(a@.skip(i as int), b@.skip(i as int)),
            lex_le(b@, a@) == lex_le(b@.skip(i as int), a@.skip(i as int)),
        decreases min - i,
    {
        let ca = a.get_char(i);
        let cb = b.get_char(i);
        if ca != cb {
            return (ca as u32) < (cb as u32);
        }
        proof {
            assert(a@.skip(i as int).skip(1) =~= a@.skip(i + 1));
            assert(b@.skip(i as int).skip(1) =~= b@.skip(i + 1));
        }
        i = i + 1;
    }
    a_len <= b_len
}

/// Equality of two strings, decided through the lexicographic comparison.
pub fn str_eq(a: &str, b: &str) -> (r: bool)
    ensures
        r == (a@ == b@),
{
    let le_ab = str_lex_le(a, b);
    let le_ba = str_lex_le(b, a);
    proof {
        if le_ab && le_ba {
            lemma_lex_antisymm(a@, b@);
        }
        if a@ == b@ {
            lemma_lex_total(a@, b@);
        }
    }
    le_ab && le_ba
}

/// Ordering on pairs of character sequences: by the first component, then
/// by the second.
pub open spec fn pair_le(a0: Seq<char>, a1: Seq<char>, b0: Seq<char>, b1: Seq<char>) -> bool {
    lex_le(a0, b0) && (lex_le(b0, a0) ==> lex_le(a1, b1))
}

pub proof fn lemma_pair_total(a0: Seq<char>, a1: Seq<char>, b0: Seq<char>, b1: Seq<char>)
    ensures
        pair_le(a0, a1, b0, b1) || pair_le(b0, b1, a0, a1),
{
    lemma_lex_total(a0, b0);
    lemma_lex_total(a1, b1);
}

pub proof fn lemma_pair_trans(
    a0: Seq<char>,
    a1: Seq<char>,
    b0: Seq<char>,
    b1: Seq<char>,
    c0: Seq<char>,
    c1: Seq<char>,
)
    requires
        pair_le(a0, a1, b0, b1),
        pair_le(b0, b1, c0, c1),
    ensures
        pair_le(a0, a1, c0, c1),
{
    lemma_lex_trans(a0, b0, c0);
    if lex_le(c0, a0) {
        lemma_lex_trans(c0, a0, b0);
        lemma_lex_trans(a0, b0, c0);
        lemma_lex_trans(b0, c0, a0);
        lemma_lex_trans(a1, b1, c1);
    }
}

/// Compare (a0, a1) against (b0, b1) in pairwise lexicographic order.
pub fn str_pair_le(a0: &str, a1: &str, b0: &str, b1: &str) -> (r: bool)
    ensures
        r == pair_le(a0@, a1@, b0@, b1@),
{
    let le_ab = str_lex_le(a0, b0);
    if !le_ab {
        return false;
    }
    let le_ba = str_lex_le(b0, a0);
    if !le_ba {
        return true;
    }
    str_lex_le(a1, b1)
}

/// A type with a designated total preorder, used to state what "sorted"
/// means for each listing.
pub trait SortOrd: Sized {
    spec fn le_spec(&self, other: &Self) -> bool;

    proof fn lemma_le_total(a: &Self, b: &Self)
        ensures
            a.le_spec(b) || b.le_spec(a),
    ;

    proof fn lemma_le_trans(a: &Self, b: &Self, c: &Self)
        ensures
            a.le_spec(b) && b.le_spec(c) ==> a.le_spec(c),
    ;

    fn le(&self, other: &Self) -> (r: bool)
        ensures
            r == self.le_spec(other),
    ;
}

pub open spec fn sorted<T: SortOrd>(s: Seq<T>) -> bool {
    forall|i: int, j: int| 0 <= i < j < s.len() ==> #[trigger] s[i].le_spec(&s[j])
}

/// Insertion sort: the result is sorted under the type's order and holds
/// exactly the elements it started with.
pub fn sort_by_ord<T: SortOrd>(v: &mut Vec<T>)
    ensures
        sorted(final(v)@),
        final(v)@.to_multiset() == old(v)@.to_multiset(),
        final(v)@.len() == old(v)@.len(),
{
    let n = v.len();
    if n <= 1 {
        return ;
    }
    let mut i: usize = 1;
    while i < n
        invariant
            1 <= i <= n,
            v@.len() == n,
            sorted(v@.take(i as int)),
            v@.to_multiset() == old(v)@.to_multiset(),
        decreases n - i,
    {
        let mut j: usize = i;
        proof {
            assert forall|a: int, b: int|
                0 <= a < b <= i && b != j implies #[trigger] v@[a].le_spec(&v@[b]) by {
                assert(v@.take(i as int)[a].le_spec(&v@.take(i as int)[b]));
            }
        }
        while j > 0 && !v[j - 1].le(&v[j])
            invariant
                0 <= j <= i < n,
                v@.len() == n,
                v@.to_multiset() == old(v)@.to_multiset(),
                forall|a: int, b: int|
                    0 <= a < b <= i && b != j ==> #[trigger] v@[a].le_spec(&v@[b]),
                forall|b: int| j < b <= i ==> #[trigger] v@[j as int].le_spec(&v@[b]),
            decreases j,
        {
            let ghost before = v@;
            proof {
                T::lemma_le_total(&v@[j - 1], &v@[j as int]);
            }
            let x = v.remove(j);
            v.insert(j - 1, x);
            proof {
                broadcast use vstd::seq_lib::group_to_multiset_ensures;

                assert(v@ == before.remove(j as int).insert(j - 1, before[j as int]));
                assert(v@ =~= before.update(j - 1, before[j as int]).update(
                    j as int,
                    before[j - 1],
                ));
                assert(before.contains(before[j as int]));
                assert(before.to_multiset().count(before[j as int]) > 0);
                assert(before.remove(j as int).to_multiset() == before.to_multiset().remove(
                    before[j as int],
                ));
                assert(before.remove(j as int).insert(j - 1, before[j as int]).to_multiset()
                    == before.remove(j as int).to_multiset().insert(before[j as int]));
                assert(v@.to_multiset() =~= before.to_multiset());
                assert forall|a: int, b: int|
                    0 <= a < b <= i && b != j - 1 implies #[trigger] v@[a].le_spec(&v@[b]) by {
                    if b == j && 0 <= a < j - 1 {
                        assert(before[a].le_spec(&before[j - 1]));
                    }
                }
            }
            j = j - 1;
        }
        proof {
            assert forall|a: int, b: int| 0 <= a < b <= i implies #[trigger] v@[a].le_spec(
                &v@[b],
            ) by {
                if b == j && a < j - 1 {
                    assert(v@[a].le_spec(&v@[j - 1]));
                    T::lemma_le_trans(&v@[a], &v@[j - 1], &v@[b]);
                }
            }
            assert forall|a: int, b: int|
                0 <= a < b < v@.take(i + 1).len() implies #[trigger] v@.take(i + 1)[a].le_spec(
                &v@.take(i + 1)[b],
            ) by {
                assert(v@[a].le_spec(&v@[b]));
            }
        }
        i = i + 1;
    }
    proof {
        assert(v@.take(n as int) =~= v@);
    }
}

} // verus!
