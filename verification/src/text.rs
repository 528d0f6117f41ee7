//! Ordering and equality on strings, spelled out over their character
//! sequences so that sorting and lookups can be verified.

use vstd::prelude::*;
use vstd::utf8::char_u32_cast;

verus! {

/// Lexicographic "less than or equal" on character sequences, comparing
/// code points position by position.
pub open spec fn seq_char_le(a: Seq<char>, b: Seq<char>) -> bool
    decreases a.len(),
{
    if a.len() == 0 {
        true
    } else if b.len() == 0 {
        false
    } else if a[0] as u32 != b[0] as u32 {
        (a[0] as u32) < (b[0] as u32)
    } else {
        seq_char_le(a.skip(1), b.skip(1))
    }
}

/// Any two character sequences are comparable.
pub proof fn lemma_seq_char_le_total(a: Seq<char>, b: Seq<char>)
    ensures
        seq_char_le(a, b) || seq_char_le(b, a),
    decreases a.len(),
{
    if a.len() == 0 || b.len() == 0 {
    } else if a[0] as u32 != b[0] as u32 {
    } else {
        lemma_seq_char_le_total(a.skip(1), b.skip(1));
    }
}

/// Two sequences that compare at or below each other are equal.
pub proof fn lemma_seq_char_le_antisymmetric(a: Seq<char>, b: Seq<char>)
    requires
        seq_char_le(a, b),
        seq_char_le(b, a),
    ensures
        a == b,
    decreases a.len(),
{
    if a.len() == 0 {
        assert(b.len() == 0);
        assert(a =~= b);
    } else {
        assert(b.len() > 0);
        assert(a[0] as u32 == b[0] as u32);
        char_u32_cast(a[0], a[0] as u32);
        char_u32_cast(b[0], b[0] as u32);
        assert(a[0] == b[0]);
        lemma_seq_char_le_antisymmetric(a.skip(1), b.skip(1));
        assert(a =~= b) by {
            assert(forall|i: int|
                0 < i < a.len() ==> a[i] == a.skip(1)[i - 1] && b[i] == b.skip(1)[i - 1]);
        }
    }
}

/// Lexicographic comparison is transitive.
pub proof fn lemma_seq_char_le_transitive(a: Seq<char>, b: Seq<char>, c: Seq<char>)
    requires
        seq_char_le(a, b),
        seq_char_le(b, c),
    ensures
        seq_char_le(a, c),
    decreases a.len(),
{
    if a.len() == 0 || b.len() == 0 || c.len() == 0 {
    } else if a[0] as u32 == b[0] as u32 && b[0] as u32 == c[0] as u32 {
        lemma_seq_char_le_transitive(a.skip(1), b.skip(1), c.skip(1));
    }
}

/// Decides `seq_char_le` on two string slices.
pub fn str_le(a: &str, b: &str) -> (r: bool)
    ensures
        r == seq_char_le(a@, b@),
{
    let a_len = a.unicode_len();
    let b_len = b.unicode_len();
    proof {
        assert(a@.skip(0) =~= a@);
        assert(b@.skip(0) =~= b@);
    }
    let mut i: usize = 0;
    loop
        invariant
            i <= a_len,
            i <= b_len,
            a_len == a@.len(),
            b_len == b@.len(),
            seq_char_le(a@, b@) == seq_char_le(a@.skip(i as int), b@.skip(i as int)),
        decreases a_len - i,
    {
        if i >= a_len {
            assert(a@.skip(i as int).len() == 0);
            return true;
        }
        if i >= b_len {
            assert(b@.skip(i as int).len() == 0);
            assert(a@.skip(i as int).len() > 0);
            return false;
        }
        let ca = a.get_char(i) as u32;
        let cb = b.get_char(i) as u32;
        assert(a@.skip(i as int)[0] == a@[i as int]);
        assert(b@.skip(i as int)[0] == b@[i as int]);
        if ca != cb {
            return ca < cb;
        }
        assert(a@.skip(i as int).skip(1) =~= a@.skip(i + 1));
        assert(b@.skip(i as int).skip(1) =~= b@.skip(i + 1));
        i = i + 1;
    }
}

/// Decides equality of the character sequences of two string slices.
pub fn str_eq(a: &str, b: &str) -> (r: bool)
    ensures
        r == (a@ == b@),
{
    let a_len = a.unicode_len();
    let b_len = b.unicode_len();
    if a_len != b_len {
        return false;
    }
    let mut i: usize = 0;
    while i < a_len
        invariant
            i <= a_len,
            a_len == a@.len(),
            b_len == b@.len(),
            a_len == b_len,
            forall|j: int| 0 <= j < i ==> a@[j] == b@[j],
        decreases a_len - i,
    {
        let ca = a.get_char(i) as u32;
        let cb = b.get_char(i) as u32;
        if ca != cb {
            assert(a@[i as int] as u32 != b@[i as int] as u32);
            assert(a@ != b@);
            return false;
        }
        proof {
            char_u32_cast(a@[i as int], a@[i as int] as u32);
            char_u32_cast(b@[i as int], b@[i as int] as u32);
        }
        i = i + 1;
    }
    assert(a@ =~= b@);
    true
}

/// Whether a sequence of strings contains one whose characters are `x`.
pub open spec fn names_contain(v: Seq<String>, x: Seq<char>) -> bool {
    exists|i: int| 0 <= i < v.len() && v[i]@ == x
}

/// Decides `names_contain` over a vector of strings.
pub fn vec_contains_str(v: &Vec<String>, x: &str) -> (r: bool)
    ensures
        r == names_contain(v@, x@),
{
    let mut i: usize = 0;
    while i < v.len()
        invariant
            i <= v@.len(),
            forall|j: int| 0 <= j < i ==> v@[j]@ != x@,
        decreases v@.len() - i,
    {
        if str_eq(v[i].as_str(), x) {
            assert(names_contain(v@, x@));
            return true;
        }
        i = i + 1;
    }
    false
}

/// Whether a sequence of strings is sorted in lexicographic order.
pub open spec fn names_sorted(v: Seq<String>) -> bool {
    forall|i: int, j: int| 0 <= i <= j < v.len() ==> seq_char_le(v[i]@, v[j]@)
}

/// Whether the first `n` strings of a sequence are sorted.
pub open spec fn names_sorted_prefix(v: Seq<String>, n: int) -> bool {
    forall|i: int, j: int| 0 <= i <= j < n ==> seq_char_le(v[i]@, v[j]@)
}

/// `seq_char_le` is reflexive.
pub proof fn lemma_seq_char_le_reflexive(a: Seq<char>)
    ensures
        seq_char_le(a, a),
{
    lemma_seq_char_le_total(a, a);
}

/// Sorts a vector of strings lexicographically by insertion; the
/// result holds exactly the same elements.
pub fn sort_strings(v: &mut Vec<String>)
    ensures
        names_sorted(final(v)@),
        final(v)@.to_multiset() == old(v)@.to_multiset(),
{
    if v.len() == 0 {
        return ;
    }
    proof {
        lemma_seq_char_le_reflexive(v@[0]@);
    }
    let mut i: usize = 1;
    while i < v.len()
        invariant
            1 <= i <= v@.len(),
            names_sorted_prefix(v@, i as int),
            v@.to_multiset() == old(v)@.to_multiset(),
        decreases v@.len() - i,
    {
        let ghost pre = v@;
        let x = v.remove(i);
        let ghost v_mid = v@;
        proof {
            broadcast use vstd::seq_lib::group_to_multiset_ensures;

            assert(v@ == pre.remove(i as int));
            assert(v@.to_multiset() =~= pre.to_multiset().remove(x));
            assert(forall|k: int| 0 <= k < i ==> v@[k] == pre[k]);
            assert(names_sorted_prefix(v@, i as int));
        }
        let mut j: usize = i;
        loop
            invariant
                j <= i,
                i <= v@.len(),
                v@ == v_mid,
                forall|k: int| j <= k < i ==> seq_char_le(x@, v@[k]@),
            ensures
                j <= i,
                v@ == v_mid,
                forall|k: int| j <= k < i ==> seq_char_le(x@, v@[k]@),
                j > 0 ==> seq_char_le(v@[j - 1]@, x@),
            decreases j,
        {
            if j == 0 {
                break ;
            }
            if str_le(v[j - 1].as_str(), x.as_str()) {
                break ;
            }
            proof {
                lemma_seq_char_le_total(v@[j - 1]@, x@);
            }
            j = j - 1;
        }
        let ghost jj = j as int;
        v.insert(j, x);
        proof {
            broadcast use vstd::seq_lib::group_to_multiset_ensures;

            assert(v@ == v_mid.insert(jj, x));
            assert(pre.contains(x)) by {
                assert(pre[i as int] == x);
            }
            assert(pre.to_multiset().count(x) > 0);
            assert(v@.to_multiset() =~= v_mid.to_multiset().insert(x));
            assert(v@.to_multiset() =~= pre.to_multiset()) by {
                assert(v_mid.to_multiset().insert(x) =~= pre.to_multiset());
            }
            assert forall|p: int, q: int| 0 <= p <= q < i + 1 implies seq_char_le(
                v@[p]@,
                v@[q]@,
            ) by {
                if p == q {
                    lemma_seq_char_le_reflexive(v@[p]@);
                } else if q < jj {
                    assert(v@[p] == v_mid[p] && v@[q] == v_mid[q]);
                } else if p < jj && q == jj {
                    assert(v@[p] == v_mid[p]);
                    assert(v@[q] == x);
                    assert(seq_char_le(v_mid[jj - 1]@, x@));
                    if p < jj - 1 {
                        lemma_seq_char_le_transitive(v_mid[p]@, v_mid[jj - 1]@, x@);
                    }
                } else if p < jj && q > jj {
                    assert(v@[p] == v_mid[p] && v@[q] == v_mid[q - 1]);
                } else if p == jj && q > jj {
                    assert(v@[p] == x);
                    assert(v@[q] == v_mid[q - 1]);
                    assert(seq_char_le(x@, v_mid[q - 1]@));
                } else {
                    assert(v@[p] == v_mid[p - 1] && v@[q] == v_mid[q - 1]);
                }
            }
            assert(names_sorted_prefix(v@, i + 1));
        }
        i = i + 1;
    }
}

} // verus!
