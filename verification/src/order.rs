//! The order of texts (lexicographic by code point, which is also the byte
//! order of their UTF-8 encodings and so the order of `String`) and sorting
//! a list of texts by it.

use vstd::prelude::*;
use vstd::relations::{sorted_by, total_ordering};

verus! {

broadcast use vstd::seq_lib::group_to_multiset_ensures, vstd::multiset::group_multiset_axioms;

/// Whether `a` comes no later than `b`: lexicographic by code point, with a
/// proper prefix first.
pub open spec fn text_le(a: Seq<char>, b: Seq<char>) -> bool
    decreases a.len(),
{
    if a.len() == 0 {
        true
    } else if b.len() == 0 {
        false
    } else if a[0] != b[0] {
        a[0] < b[0]
    } else {
        text_le(a.drop_first(), b.drop_first())
    }
}

/// The order as a relation value, as `sort_by` takes it.
pub open spec fn text_order() -> spec_fn(Seq<char>, Seq<char>) -> bool {
    |a: Seq<char>, b: Seq<char>| text_le(a, b)
}

/// The characters of each vector of `v`.
pub open spec fn texts(v: Seq<Vec<char>>) -> Seq<Seq<char>> {
    v.map_values(|x: Vec<char>| x@)
}

proof fn lemma_text_le_reflexive(a: Seq<char>)
    ensures
        text_le(a, a),
    decreases a.len(),
{
    if a.len() > 0 {
        lemma_text_le_reflexive(a.drop_first());
    }
}

proof fn lemma_text_le_antisymmetric(a: Seq<char>, b: Seq<char>)
    requires
        text_le(a, b),
        text_le(b, a),
    ensures
        a == b,
    decreases a.len(),
{
    if a.len() > 0 && b.len() > 0 {
        lemma_text_le_antisymmetric(a.drop_first(), b.drop_first());
        assert(a =~= seq![a[0]] + a.drop_first());
        assert(b =~= seq![b[0]] + b.drop_first());
    } else {
        assert(a =~= b);
    }
}

proof fn lemma_text_le_transitive(a: Seq<char>, b: Seq<char>, c: Seq<char>)
    requires
        text_le(a, b),
        text_le(b, c),
    ensures
        text_le(a, c),
    decreases a.len(),
{
    if a.len() > 0 && b.len() > 0 && c.len() > 0 {
        if a[0] == b[0] && b[0] == c[0] {
            lemma_text_le_transitive(a.drop_first(), b.drop_first(), c.drop_first());
        }
    }
}

proof fn lemma_text_le_total(a: Seq<char>, b: Seq<char>)
    ensures
        text_le(a, b) || text_le(b, a),
    decreases a.len(),
{
    if a.len() > 0 && b.len() > 0 && a[0] == b[0] {
        lemma_text_le_total(a.drop_first(), b.drop_first());
    }
}

/// The order of texts is a total order.
pub proof fn lemma_text_order_is_total()
    ensures
        total_ordering(text_order()),
{
    assert forall|a: Seq<char>| #[trigger] text_order()(a, a) by {
        lemma_text_le_reflexive(a);
    }
    assert forall|a: Seq<char>, b: Seq<char>|
        #[trigger] text_order()(a, b) && #[trigger] text_order()(b, a) implies a == b by {
        lemma_text_le_antisymmetric(a, b);
    }
    assert forall|a: Seq<char>, b: Seq<char>, c: Seq<char>|
        #[trigger] text_order()(a, b) && #[trigger] text_order()(b, c) implies text_order()(
        a,
        c,
    ) by {
        lemma_text_le_transitive(a, b, c);
    }
    assert forall|a: Seq<char>, b: Seq<char>|
        #[trigger] text_order()(a, b) || #[trigger] text_order()(b, a) by {
        lemma_text_le_total(a, b);
    }
}

/// Whether `a` comes no later than `b`.
pub fn text_le_chars(a: &Vec<char>, b: &Vec<char>) -> (r: bool)
    ensures
        r == text_le(a@, b@),
{
    let mut i: usize = 0;
    assert(a@.skip(0) =~= a@ && b@.skip(0) =~= b@);
    while i < a.len() && i < b.len() && a[i] == b[i]
        invariant
            0 <= i <= a.len(),
            i <= b.len(),
            text_le(a@, b@) == text_le(a@.skip(i as int), b@.skip(i as int)),
        decreases a.len() - i,
    {
        assert(a@.skip(i as int).drop_first() =~= a@.skip(i + 1));
        assert(b@.skip(i as int).drop_first() =~= b@.skip(i + 1));
        i = i + 1;
    }
    if i == a.len() {
        true
    } else if i == b.len() {
        false
    } else {
        assert(a@.skip(i as int)[0] == a@[i as int]);
        assert(b@.skip(i as int)[0] == b@[i as int]);
        a[i] < b[i]
    }
}

/// `items` in the order of texts.
pub fn sort_texts(items: Vec<Vec<char>>) -> (r: Vec<Vec<char>>)
    ensures
        texts(r@) == texts(items@).sort_by(text_order()),
{
    let ghost all = texts(items@);
    let mut rest = items;
    let mut sorted: Vec<Vec<char>> = Vec::new();
    proof {
        lemma_text_order_is_total();
        assert(texts(sorted@) =~= Seq::<Seq<char>>::empty());
    }
    while rest.len() > 0
        invariant
            total_ordering(text_order()),
            sorted_by(texts(sorted@), text_order()),
            texts(sorted@).to_multiset().add(texts(rest@).to_multiset()) == all.to_multiset(),
        decreases rest.len(),
    {
        let ghost before_rest = texts(rest@);
        let x = rest.pop().unwrap();
        proof {
            assert(before_rest =~= texts(rest@).push(x@));
        }
        let mut p: usize = 0;
        while p < sorted.len() && text_le_chars(&sorted[p], &x)
            invariant
                0 <= p <= sorted.len(),
                forall|k: int| 0 <= k < p ==> text_le(#[trigger] sorted@[k]@, x@),
            decreases sorted.len() - p,
        {
            p = p + 1;
        }
        let ghost g = texts(sorted@);
        proof {
            if p < sorted.len() {
                lemma_text_le_total(sorted@[p as int]@, x@);
            }
            assert forall|i: int, j: int| 0 <= i < j < g.len() + 1 implies #[trigger] text_order()(
                g.insert(p as int, x@)[i],
                g.insert(p as int, x@)[j],
            ) by {
                let h = g.insert(p as int, x@);
                if i < p && j == p {
                    assert(text_le(sorted@[i]@, x@));
                } else if i == p && j > p {
                    assert(text_order()(g[p as int], g[j - 1]) || p == j - 1);
                    if p < j - 1 {
                        lemma_text_le_transitive(x@, g[p as int], g[j - 1]);
                    }
                } else if i < p && j > p {
                    assert(text_order()(g[i], g[j - 1]));
                } else if j < p {
                    assert(text_order()(g[i], g[j]));
                } else {
                    assert(text_order()(g[i - 1], g[j - 1]));
                }
            }
        }
        sorted.insert(p, x);
        proof {
            assert(texts(sorted@) =~= g.insert(p as int, x@));
        }
    }
    proof {
        assert(texts(rest@) =~= Seq::<Seq<char>>::empty());
        assert(texts(sorted@).to_multiset() =~= all.to_multiset());
        all.lemma_sort_by_ensures(text_order());
        vstd::seq_lib::lemma_sorted_unique(texts(sorted@), all.sort_by(text_order()), text_order());
    }
    sorted
}

} // verus!
