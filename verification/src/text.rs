//! Small verified helpers over strings.

use crate::fmt::views;
use vstd::prelude::*;
use vstd::relations::{sorted_by, total_ordering};

verus! {

/// Character-wise equality of two string slices.
pub fn str_eq(a: &str, b: &str) -> (r: bool)
    ensures
        r == (a@ == b@),
{
    let n = a.unicode_len();
    if n != b.unicode_len() {
        return false;
    }
    let mut i: usize = 0;
    while i < n
        invariant
            n == a@.len(),
            n == b@.len(),
            0 <= i <= n,
            forall|j: int| 0 <= j < i ==> a@[j] == b@[j],
        decreases n - i,
    {
        if a.get_char(i) != b.get_char(i) {
            return false;
        }
        i = i + 1;
    }
    assert(a@ =~= b@);
    true
}

/// Lexicographic order of texts by code point, which is the order of their
/// UTF-8 bytes, so the order `str` and `String` compare by.
pub open spec fn text_le(a: Seq<char>, b: Seq<char>) -> bool
    decreases a.len(),
{
    if a.len() == 0 {
        true
    } else if b.len() == 0 {
        false
    } else if a[0] != b[0] {
        (a[0] as int) < (b[0] as int)
    } else {
        text_le(a.drop_first(), b.drop_first())
    }
}

proof fn lemma_text_le_reflexive(a: Seq<char>)
    ensures
        text_le(a, a),
    decreases a.len(),
{
    if a.len() > 0 {
        lemma_text_le_reflexive(a.drop_first());
    }
}

proof fn lemma_text_le_antisymmetric(a: Seq<char>, b: Seq<char>)
    requires
        text_le(a, b),
        text_le(b, a),
    ensures
        a == b,
    decreases a.len(),
{
    if a.len() > 0 && b.len() > 0 {
        if a[0] == b[0] {
            lemma_text_le_antisymmetric(a.drop_first(), b.drop_first());
            assert(a =~= seq![a[0]] + a.drop_first());
            assert(b =~= seq![b[0]] + b.drop_first());
        }
    } else {
        assert(a =~= b);
    }
}

proof fn lemma_text_le_transitive(a: Seq<char>, b: Seq<char>, c: Seq<char>)
    requires
        text_le(a, b),
        text_le(b, c),
    ensures
        text_le(a, c),
    decreases a.len(),
{
    if a.len() > 0 && b.len() > 0 && c.len() > 0 {
        if a[0] == b[0] && b[0] == c[0] {
            lemma_text_le_transitive(a.drop_first(), b.drop_first(), c.drop_first());
        }
    }
}

proof fn lemma_text_le_total(a: Seq<char>, b: Seq<char>)
    ensures
        text_le(a, b) || text_le(b, a),
    decreases a.len(),
{
    if a.len() > 0 && b.len() > 0 {
        if a[0] == b[0] {
            lemma_text_le_total(a.drop_first(), b.drop_first());
        } else {
            assert(a[0] as int != b[0] as int);
        }
    }
}

/// `text_le` is a total order.
pub proof fn lemma_text_le_total_ordering()
    ensures
        total_ordering(|a: Seq<char>, b: Seq<char>| text_le(a, b)),
{
    let r = |a: Seq<char>, b: Seq<char>| text_le(a, b);
    assert forall|a: Seq<char>| #[trigger] r(a, a) by {
        lemma_text_le_reflexive(a);
    }
    assert forall|a: Seq<char>, b: Seq<char>| #[trigger] r(a, b) && #[trigger] r(b, a) implies a
        == b by {
        lemma_text_le_antisymmetric(a, b);
    }
    assert forall|a: Seq<char>, b: Seq<char>, c: Seq<char>| #[trigger] r(a, b) && #[trigger] r(
        b,
        c,
    ) implies r(a, c) by {
        lemma_text_le_transitive(a, b, c);
    }
    assert forall|a: Seq<char>, b: Seq<char>| #[trigger] r(a, b) || #[trigger] r(b, a) by {
        lemma_text_le_total(a, b);
    }
}

/// Compares two texts in `text_le` order.
pub fn str_le(a: &str, b: &str) -> (r: bool)
    ensures
        r == text_le(a@, b@),
{
    let n = a.unicode_len();
    let m = b.unicode_len();
    let mut i: usize = 0;
    proof {
        assert(a@.skip(0) =~= a@);
        assert(b@.skip(0) =~= b@);
    }
    while i < n && i < m
        invariant
            n == a@.len(),
            m == b@.len(),
            0 <= i <= n,
            i <= m,
            text_le(a@, b@) == text_le(a@.skip(i as int), b@.skip(i as int)),
        decreases n - i,
    {
        let x = a.get_char(i);
        let y = b.get_char(i);
        if x != y {
            return x < y;
        }
        proof {
            assert(a@.skip(i as int).drop_first() =~= a@.skip(i as int + 1));
            assert(b@.skip(i as int).drop_first() =~= b@.skip(i as int + 1));
        }
        i = i + 1;
    }
    i == n
}

/// Sorts texts into `text_le` order.
pub fn sort_texts(names: &Vec<String>) -> (out: Vec<String>)
    ensures
        sorted_by(views(out@), |a: Seq<char>, b: Seq<char>| text_le(a, b)),
        views(out@).to_multiset() == views(names@).to_multiset(),
        views(out@) == views(names@).sort_by(|a: Seq<char>, b: Seq<char>| text_le(a, b)),
{
    let ghost le = |a: Seq<char>, b: Seq<char>| text_le(a, b);
    proof {
        lemma_text_le_total_ordering();
    }
    let mut out: Vec<String> = Vec::new();
    let mut i: usize = 0;
    proof {
        assert(views(out@) =~= Seq::<Seq<char>>::empty());
        assert(views(names@.subrange(0, 0)) =~= Seq::<Seq<char>>::empty());
    }
    while i < names.len()
        invariant
            0 <= i <= names@.len(),
            total_ordering(le),
            le == (|a: Seq<char>, b: Seq<char>| text_le(a, b)),
            sorted_by(views(out@), le),
            views(out@).to_multiset() == views(names@.subrange(0, i as int)).to_multiset(),
        decreases names@.len() - i,
    {
        let key = names[i].clone();
        let mut p: usize = 0;
        while p < out.len() && str_le(out[p].as_str(), key.as_str())
            invariant
                0 <= p <= out@.len(),
                forall|q: int| 0 <= q < p ==> text_le(out@[q]@, key@),
            decreases out@.len() - p,
        {
            p = p + 1;
        }
        let ghost before = views(out@);
        proof {
            if p < before.len() {
                lemma_text_le_total(key@, before[p as int]);
            }
        }
        out.insert(p, key);
        proof {
            let after = views(out@);
            assert(after =~= before.insert(p as int, key@));
            assert forall|x: int, y: int| 0 <= x < y < after.len() implies #[trigger] le(
                after[x],
                after[y],
            ) by {
                if y < p {
                    assert(le(before[x], before[y]));
                    assert(after[x] == before[x] && after[y] == before[y]);
                } else if y == p {
                    assert(text_le(before[x], key@));
                } else {
                    // y > p: after[y] == before[y - 1], which is not below the key.
                    assert(after[y] == before[y - 1]);
                    assert(text_le(key@, before[p as int]));
                    if y - 1 > p {
                        assert(le(before[p as int], before[y - 1]));
                        lemma_text_le_transitive(key@, before[p as int], before[y - 1]);
                    }
                    assert(text_le(key@, before[y - 1]));
                    if x < p {
                        assert(text_le(before[x], key@));
                        lemma_text_le_transitive(before[x], key@, before[y - 1]);
                    } else if x > p {
                        assert(le(before[x - 1], before[y - 1]));
                    }
                }
            }
            assert(names@.subrange(0, i as int + 1) =~= names@.subrange(0, i as int).push(
                names@[i as int],
            ));
            assert(views(names@.subrange(0, i as int + 1)) =~= views(
                names@.subrange(0, i as int),
            ).push(key@));
            let pre_names = views(names@.subrange(0, i as int));
            assert(pre_names.push(key@) =~= pre_names.insert(pre_names.len() as int, key@));
            vstd::seq_lib::to_multiset_insert(pre_names, pre_names.len() as int, key@);
            vstd::seq_lib::to_multiset_insert(before, p as int, key@);
        }
        i = i + 1;
    }
    proof {
        assert(names@.subrange(0, names@.len() as int) =~= names@);
        let sorted = views(names@).sort_by(le);
        views(names@).lemma_sort_by_ensures(le);
        vstd::seq_lib::lemma_sorted_unique(views(out@), sorted, le);
    }
    out
}

/// The position of the first text equal to `key`.
pub fn position_of(texts: &Vec<String>, key: &str) -> (r: Option<usize>)
    ensures
        match r {
            Some(i) => i < texts@.len() && texts@[i as int]@ == key@ && forall|j: int|
                0 <= j < i ==> texts@[j]@ != key@,
            None => forall|j: int| 0 <= j < texts@.len() ==> texts@[j]@ != key@,
        },
{
    let mut i: usize = 0;
    while i < texts.len()
        invariant
            0 <= i <= texts@.len(),
            forall|j: int| 0 <= j < i ==> texts@[j]@ != key@,
        decreases texts@.len() - i,
    {
        if str_eq(texts[i].as_str(), key) {
            return Some(i);
        }
        i = i + 1;
    }
    None
}

/// A character with ASCII upper case letters lowered.
pub open spec fn ascii_lower(c: char) -> char {
    if 'A' <= c && c <= 'Z' {
        (c as int + 32) as char
    } else {
        c
    }
}

/// Equality of texts ignoring ASCII case.
pub open spec fn eq_ignoring_ascii_case(a: Seq<char>, b: Seq<char>) -> bool {
    a.len() == b.len() && forall|i: int| 0 <= i < a.len() ==> ascii_lower(a[i]) == ascii_lower(b[i])
}

fn lower_char(c: char) -> (r: char)
    ensures
        r == ascii_lower(c),
{
    if 'A' <= c && c <= 'Z' {
        let v = c as u8;
        assert(v as int == c as int);
        (v + 32) as char
    } else {
        c
    }
}

/// Compares two texts ignoring ASCII case, as `str::eq_ignore_ascii_case`
/// does.
pub fn eq_ignore_ascii_case(a: &str, b: &str) -> (r: bool)
    ensures
        r == eq_ignoring_ascii_case(a@, b@),
{
    let n = a.unicode_len();
    if n != b.unicode_len() {
        return false;
    }
    let mut i: usize = 0;
    while i < n
        invariant
            n == a@.len(),
            n == b@.len(),
            0 <= i <= n,
            forall|j: int| 0 <= j < i ==> ascii_lower(a@[j]) == ascii_lower(b@[j]),
        decreases n - i,
    {
        if lower_char(a.get_char(i)) != lower_char(b.get_char(i)) {
            return false;
        }
        i = i + 1;
    }
    true
}

} // verus!
