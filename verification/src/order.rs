//! Lexicographic order on character sequences, and sorting by it.
//!
//! Strings compare character by character by code point, and a proper prefix
//! comes first. Because UTF-8 preserves code-point order byte by byte, this is
//! the order in which Rust's `String` sorts.

use vstd::prelude::*;
use vstd::relations::{sorted_by, total_ordering};

verus! {

/// `a` comes before `b`, or equals it, in lexicographic order.
pub open spec fn lex_le(a: Seq<char>, b: Seq<char>) -> bool
    decreases a.len(),
{
    if a.len() == 0 {
        true
    } else if b.len() == 0 {
        false
    } else if a[0] != b[0] {
        a[0] < b[0]
    } else {
        lex_le(a.drop_first(), b.drop_first())
    }
}

/// [`lex_le`] as a relation value.
pub open spec fn lex_order() -> spec_fn(Seq<char>, Seq<char>) -> bool {
    |a: Seq<char>, b: Seq<char>| lex_le(a, b)
}

/// The views of a sequence of character vectors.
pub open spec fn char_vec_views(v: Seq<Vec<char>>) -> Seq<Seq<char>> {
    v.map_values(|x: Vec<char>| x@)
}

/// The views of a sequence of strings.
pub open spec fn string_views(v: Seq<String>) -> Seq<Seq<char>> {
    v.map_values(|x: String| x@)
}

proof fn lemma_lex_le_reflexive(a: Seq<char>)
    ensures
        lex_le(a, a),
    decreases a.len(),
{
    if a.len() > 0 {
        lemma_lex_le_reflexive(a.drop_first());
    }
}

proof fn lemma_lex_le_antisymmetric(a: Seq<char>, b: Seq<char>)
    requires
        lex_le(a, b),
        lex_le(b, a),
    ensures
        a == b,
    decreases a.len(),
{
    if a.len() == 0 {
        assert(b.len() == 0);
        assert(a =~= b);
    } else {
        lemma_lex_le_antisymmetric(a.drop_first(), b.drop_first());
        assert(a =~= seq![a[0]] + a.drop_first());
        assert(b =~= seq![b[0]] + b.drop_first());
    }
}

proof fn lemma_lex_le_transitive(a: Seq<char>, b: Seq<char>, c: Seq<char>)
    requires
        lex_le(a, b),
        lex_le(b, c),
    ensures
        lex_le(a, c),
    decreases a.len(),
{
    if a.len() > 0 && b.len() > 0 && c.len() > 0 {
        if a[0] == b[0] && b[0] == c[0] {
            lemma_lex_le_transitive(a.drop_first(), b.drop_first(), c.drop_first());
        }
    }
}

proof fn lemma_lex_le_total(a: Seq<char>, b: Seq<char>)
    ensures
        lex_le(a, b) || lex_le(b, a),
    decreases a.len(),
{
    if a.len() > 0 && b.len() > 0 && a[0] == b[0] {
        lemma_lex_le_total(a.drop_first(), b.drop_first());
    }
}

/// Lexicographic order is a total order: reflexive, antisymmetric,
/// transitive, and any two sequences are comparable.
pub proof fn law_lex_order_is_total()
    ensures
        total_ordering(lex_order()),
{
    assert forall|a: Seq<char>| #[trigger] lex_order()(a, a) by {
        lemma_lex_le_reflexive(a);
    }
    assert forall|a: Seq<char>, b: Seq<char>|
        #[trigger] lex_order()(a, b) && #[trigger] lex_order()(b, a) implies a == b by {
        lemma_lex_le_antisymmetric(a, b);
    }
    assert forall|a: Seq<char>, b: Seq<char>, c: Seq<char>|
        #[trigger] lex_order()(a, b) && #[trigger] lex_order()(b, c) implies lex_order()(a, c) by {
        lemma_lex_le_transitive(a, b, c);
    }
    assert forall|a: Seq<char>, b: Seq<char>|
        #[trigger] lex_order()(a, b) || #[trigger] lex_order()(b, a) by {
        lemma_lex_le_total(a, b);
    }
}

proof fn lemma_lex_le_step(a: Seq<char>, b: Seq<char>, i: int)
    requires
        0 <= i < a.len(),
        i < b.len(),
        a[i] == b[i],
    ensures
        lex_le(a.skip(i), b.skip(i)) == lex_le(a.skip(i + 1), b.skip(i + 1)),
{
    assert(a.skip(i).drop_first() =~= a.skip(i + 1));
    assert(b.skip(i).drop_first() =~= b.skip(i + 1));
}

/// Whether `a` comes before `b`, or equals it, in lexicographic order.
pub fn chars_le(a: &Vec<char>, b: &Vec<char>) -> (r: bool)
    ensures
        r == lex_le(a@, b@),
{
    let mut i: usize = 0;
    assert(a@.skip(0) =~= a@);
    assert(b@.skip(0) =~= b@);
    while i < a.len() && i < b.len()
        invariant
            i <= a@.len(),
            i <= b@.len(),
            lex_le(a@, b@) == lex_le(a@.skip(i as int), b@.skip(i as int)),
        decreases a@.len() - i,
    {
        if a[i] != b[i] {
            return a[i] < b[i];
        }
        proof {
            lemma_lex_le_step(a@, b@, i as int);
        }
        i = i + 1;
    }
    i == a.len()
}

/// Sorts `v` in lexicographic order.
pub fn sort_char_vecs(v: Vec<Vec<char>>) -> (r: Vec<Vec<char>>)
    ensures
        char_vec_views(r@) == char_vec_views(v@).sort_by(lex_order()),
{
    let mut r: Vec<Vec<char>> = Vec::new();
    let n = v.len();
    let mut i: usize = 0;
    proof {
        law_lex_order_is_total();
        assert(char_vec_views(r@) =~= char_vec_views(v@).take(0));
    }
    while i < n
        invariant
            n == v@.len(),
            i <= n,
            total_ordering(lex_order()),
            sorted_by(char_vec_views(r@), lex_order()),
            char_vec_views(r@).to_multiset() == char_vec_views(v@).take(i as int).to_multiset(),
        decreases n - i,
    {
        let x = v[i].clone();
        let ghost rs = char_vec_views(r@);
        // Find the first element that comes strictly after `x`.
        let mut pos: usize = 0;
        while pos < r.len() && chars_le(&r[pos], &x)
            invariant
                pos <= r@.len(),
                rs == char_vec_views(r@),
                forall|j: int| 0 <= j < pos ==> lex_le(#[trigger] rs[j], x@),
            decreases r@.len() - pos,
        {
            pos = pos + 1;
        }
        proof {
            assert forall|j: int| pos <= j < rs.len() implies lex_le(x@, #[trigger] rs[j]) by {
                assert(!lex_le(rs[pos as int], x@));
                lemma_lex_le_total(rs[pos as int], x@);
                if j > pos {
                    assert(lex_order()(rs[pos as int], rs[j]));
                    lemma_lex_le_transitive(x@, rs[pos as int], rs[j]);
                }
            }
        }
        r.insert(pos, x);
        proof {
            let ns = char_vec_views(r@);
            assert(ns =~= rs.insert(pos as int, x@));
            assert forall|a: int, b: int| 0 <= a < b < ns.len() implies #[trigger] lex_order()(
                ns[a],
                ns[b],
            ) by {
                if a < pos && b < pos {
                    assert(lex_order()(rs[a], rs[b]));
                } else if a < pos && b == pos {
                } else if a < pos && b > pos {
                    assert(lex_le(rs[a], x@));
                    assert(lex_le(x@, rs[b - 1]));
                    lemma_lex_le_transitive(rs[a], x@, rs[b - 1]);
                } else if a == pos {
                } else {
                    assert(lex_order()(rs[a - 1], rs[b - 1]));
                }
            }
            vstd::seq_lib::to_multiset_insert(rs, pos as int, x@);
            let vs = char_vec_views(v@);
            assert(vs.take(i + 1) =~= vs.take(i as int).push(vs[i as int]));
            vstd::seq_lib::to_multiset_build(vs.take(i as int), vs[i as int]);
        }
        i = i + 1;
    }
    proof {
        let vs = char_vec_views(v@);
        assert(vs.take(n as int) =~= vs);
        vs.lemma_sort_by_ensures(lex_order());
        vstd::seq_lib::lemma_sorted_unique(char_vec_views(r@), vs.sort_by(lex_order()), lex_order());
    }
    r
}

} // verus!
