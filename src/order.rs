use vstd::prelude::*;

use crate::text::{json_string_text, push_char, push_str, quote};

verus! {

broadcast use vstd::seq_lib::group_to_multiset_ensures;

/// Lexicographic order on character sequences, comparing code points; a proper
/// prefix comes first.
pub open spec fn text_le(a: Seq<char>, b: Seq<char>) -> bool
    decreases a.len(),
{
    if a.len() == 0 {
        true
    } else if b.len() == 0 {
        false
    } else if a[0] != b[0] {
        a[0] < b[0]
    } else {
        text_le(a.drop_first(), b.drop_first())
    }
}

pub proof fn lemma_text_le_total(a: Seq<char>, b: Seq<char>)
    ensures
        text_le(a, b) || text_le(b, a),
    decreases a.len(),
{
    if a.len() > 0 && b.len() > 0 && a[0] == b[0] {
        lemma_text_le_total(a.drop_first(), b.drop_first());
    }
}

pub proof fn lemma_text_le_transitive(a: Seq<char>, b: Seq<char>, c: Seq<char>)
    requires
        text_le(a, b),
        text_le(b, c),
    ensures
        text_le(a, c),
    decreases a.len(),
{
    if a.len() > 0 && b.len() > 0 && c.len() > 0 && a[0] == b[0] && b[0] == c[0] {
        lemma_text_le_transitive(a.drop_first(), b.drop_first(), c.drop_first());
    }
}

pub proof fn lemma_text_le_reflexive(a: Seq<char>)
    ensures
        text_le(a, a),
    decreases a.len(),
{
    if a.len() > 0 {
        lemma_text_le_reflexive(a.drop_first());
    }
}

pub proof fn lemma_text_le_antisymmetric(a: Seq<char>, b: Seq<char>)
    requires
        text_le(a, b),
        text_le(b, a),
    ensures
        a == b,
    decreases a.len(),
{
    if a.len() > 0 && b.len() > 0 {
        assert(a[0] == b[0]);
        lemma_text_le_antisymmetric(a.drop_first(), b.drop_first());
        assert(a.drop_first().len() == b.drop_first().len());
        assert(a.len() == b.len());
        assert forall|k: int| 0 < k < a.len() implies a[k] == b[k] by {
            assert(a[k] == a.drop_first()[k - 1]);
            assert(b[k] == b.drop_first()[k - 1]);
        }
        assert(a =~= b);
    } else {
        assert(a =~= b);
    }
}

/// Two sorted sequences that hold the same items are the same sequence.
pub proof fn lemma_sorted_unique(s: Seq<Seq<char>>, t: Seq<Seq<char>>)
    requires
        is_sorted(s),
        is_sorted(t),
        s.to_multiset() == t.to_multiset(),
    ensures
        s == t,
    decreases s.len(),
{
    if s.len() == 0 {
        assert(t.to_multiset().len() == 0);
        assert(s =~= t);
    } else {
        vstd::seq_lib::to_multiset_len(s);
        vstd::seq_lib::to_multiset_len(t);
        assert(t.len() == s.len());
        assert(s.to_multiset().count(s[0]) > 0) by { assert(s.contains(s[0])); }
        assert(t.contains(s[0]));
        let j = choose|j: int| 0 <= j < t.len() && t[j] == s[0];
        assert(t.to_multiset().count(t[0]) > 0) by { assert(t.contains(t[0])); }
        assert(s.contains(t[0]));
        let i = choose|i: int| 0 <= i < s.len() && s[i] == t[0];
        if j > 0 {
            assert(text_le(t[0], t[j]));
        } else {
            lemma_text_le_reflexive(t[0]);
        }
        if i > 0 {
            assert(text_le(s[0], s[i]));
        } else {
            lemma_text_le_reflexive(s[0]);
        }
        lemma_text_le_antisymmetric(s[0], t[0]);
        assert(s.remove(0) =~= s.drop_first());
        assert(t.remove(0) =~= t.drop_first());
        let (s1, t1) = (s.drop_first(), t.drop_first());
        assert(is_sorted(s1)) by {
            assert forall|a: int, b: int| 0 <= a < b < s1.len() implies text_le(#[trigger] s1[a], #[trigger] s1[b]) by {
                assert(s1[a] == s[a + 1] && s1[b] == s[b + 1]);
            }
        }
        assert(is_sorted(t1)) by {
            assert forall|a: int, b: int| 0 <= a < b < t1.len() implies text_le(#[trigger] t1[a], #[trigger] t1[b]) by {
                assert(t1[a] == t[a + 1] && t1[b] == t[b + 1]);
            }
        }
        lemma_sorted_unique(s1, t1);
        assert forall|k: int| 0 < k < s.len() implies s[k] == t[k] by {
            assert(s[k] == s1[k - 1]);
            assert(t[k] == t1[k - 1]);
        }
        assert(s =~= t);
    }
}

/// The items of `s` in lexicographic order.
pub open spec fn sorted_of(s: Seq<Seq<char>>) -> Seq<Seq<char>> {
    choose|t: Seq<Seq<char>>| t.to_multiset() == s.to_multiset() && is_sorted(t)
}

/// The character sequences of a sequence of strings.
pub open spec fn views(s: Seq<String>) -> Seq<Seq<char>> {
    s.map_values(|x: String| x@)
}

pub open spec fn is_sorted(s: Seq<Seq<char>>) -> bool {
    forall|i: int, j: int| 0 <= i < j < s.len() ==> text_le(#[trigger] s[i], #[trigger] s[j])
}

/// Whether `a` comes no later than `b` in lexicographic order.
pub fn text_less_eq(a: &str, b: &str) -> (r: bool)
    ensures
        r == text_le(a@, b@),
{
    let na = a.unicode_len();
    let nb = b.unicode_len();
    let mut i: usize = 0;
    assert(a@.skip(0) =~= a@);
    assert(b@.skip(0) =~= b@);
    while i < na && i < nb
        invariant
            na == a@.len(),
            nb == b@.len(),
            i <= na,
            i <= nb,
            text_le(a@, b@) == text_le(a@.skip(i as int), b@.skip(i as int)),
        decreases na - i,
    {
        let ca = a.get_char(i);
        let cb = b.get_char(i);
        if ca != cb {
            return ca < cb;
        }
        assert(a@.skip(i as int).drop_first() =~= a@.skip(i + 1));
        assert(b@.skip(i as int).drop_first() =~= b@.skip(i + 1));
        i = i + 1;
    }
    i == na
}

proof fn lemma_insert_multiset(s: Seq<Seq<char>>, p: int, x: Seq<char>)
    requires
        0 <= p <= s.len(),
    ensures
        s.insert(p, x).to_multiset() =~= s.to_multiset().insert(x),
{
    let t = s.insert(p, x);
    assert(t.remove(p) =~= s);
    assert(t[p] == x);
    assert(t.to_multiset().count(x) > 0) by {
        assert(t.contains(x));
    }
}

/// The strings of `v`, in lexicographic order.
pub fn sorted_strings(v: &Vec<String>) -> (r: Vec<String>)
    ensures
        views(r@).to_multiset() == views(v@).to_multiset(),
        is_sorted(views(r@)),
        views(r@) == sorted_of(views(v@)),
{
    let mut r: Vec<String> = Vec::new();
    let mut i: usize = 0;
    while i < v.len()
        invariant
            i <= v.len(),
            views(r@).to_multiset() == views(v@.subrange(0, i as int)).to_multiset(),
            is_sorted(views(r@)),
        decreases v.len() - i,
    {
        let x = v[i].clone();
        let mut p: usize = 0;
        while p < r.len() && text_less_eq(r[p].as_str(), x.as_str())
            invariant
                p <= r.len(),
                forall|k: int| 0 <= k < p ==> text_le(#[trigger] views(r@)[k], x@),
            decreases r.len() - p,
        {
            p = p + 1;
        }
        proof {
            let old_s = views(r@);
            if p < r.len() {
                lemma_text_le_total(old_s[p as int], x@);
            }
            assert forall|k: int| p <= k < old_s.len() implies text_le(x@, #[trigger] old_s[k]) by {
                if p < k {
                    lemma_text_le_transitive(x@, old_s[p as int], old_s[k]);
                }
            }
            lemma_insert_multiset(old_s, p as int, x@);
            assert(views(v@.subrange(0, i + 1)) =~= views(v@.subrange(0, i as int)).push(v@[i as int]@));
        }
        let ghost old_r = r@;
        r.insert(p, x);
        proof {
            assert(views(r@) =~= views(old_r).insert(p as int, x@));
        }
        i = i + 1;
    }
    assert(v@.subrange(0, v.len() as int) =~= v@);
    proof {
        let w = sorted_of(views(v@));
        assert(w.to_multiset() == views(v@).to_multiset() && is_sorted(w));
        lemma_sorted_unique(views(r@), w);
    }
    r
}

/// The items of a JSON array of strings, each as its literal, separated by commas.
pub open spec fn joined_literals(items: Seq<Seq<char>>) -> Seq<char>
    decreases items.len(),
{
    if items.len() == 0 {
        Seq::empty()
    } else if items.len() == 1 {
        json_string_text(items[0])
    } else {
        joined_literals(items.drop_last()) + seq![','] + json_string_text(items.last())
    }
}

/// The compact JSON text of an array of strings.
pub open spec fn string_array_text(items: Seq<Seq<char>>) -> Seq<char> {
    seq!['['] + joined_literals(items) + seq![']']
}

/// The compact JSON text of the array of the strings of `v`.
pub fn string_array(v: &Vec<String>) -> (r: String)
    ensures
        r@ == string_array_text(views(v@)),
{
    let mut r = String::new();
    push_char(&mut r, '[');
    let mut i: usize = 0;
    while i < v.len()
        invariant
            i <= v.len(),
            r@ == seq!['['] + joined_literals(views(v@.subrange(0, i as int))),
        decreases v.len() - i,
    {
        let ghost before = r@;
        if i > 0 {
            push_char(&mut r, ',');
        }
        let lit = quote(v[i].as_str());
        push_str(&mut r, lit.as_str());
        proof {
            let s = views(v@.subrange(0, i + 1));
            assert(s.drop_last() =~= views(v@.subrange(0, i as int)));
            assert(s.last() == v@[i as int]@);
            if i == 0 {
                assert(r@ =~= seq!['['] + joined_literals(s));
            } else {
                assert(r@ =~= seq!['['] + joined_literals(s));
            }
        }
        i = i + 1;
    }
    push_char(&mut r, ']');
    assert(v@.subrange(0, v.len() as int) =~= v@);
    assert(r@ =~= string_array_text(views(v@)));
    r
}

} // verus!
