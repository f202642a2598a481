use vstd::prelude::*;

use crate::text::chars_of;

verus! {

/// Lexicographic order on character sequences by code point, the order of
/// `String`'s `Ord` (UTF-8 byte order agrees with code point order).
pub open spec fn lex_lt(a: Seq<char>, b: Seq<char>) -> bool
    decreases a.len(),
{
    if a.len() == 0 {
        b.len() > 0
    } else if b.len() == 0 {
        false
    } else if a[0] < b[0] {
        true
    } else if a[0] > b[0] {
        false
    } else {
        lex_lt(a.drop_first(), b.drop_first())
    }
}

pub proof fn lemma_lex_irreflexive(a: Seq<char>)
    ensures
        !lex_lt(a, a),
    decreases a.len(),
{
    if a.len() > 0 {
        lemma_lex_irreflexive(a.drop_first());
    }
}

pub proof fn lemma_lex_transitive(a: Seq<char>, b: Seq<char>, c: Seq<char>)
    requires
        lex_lt(a, b),
        lex_lt(b, c),
    ensures
        lex_lt(a, c),
    decreases a.len(),
{
    if a.len() > 0 && b.len() > 0 && c.len() > 0 {
        if a[0] == b[0] && b[0] == c[0] {
            lemma_lex_transitive(a.drop_first(), b.drop_first(), c.drop_first());
        }
    }
}

pub proof fn lemma_lex_total(a: Seq<char>, b: Seq<char>)
    ensures
        a == b || lex_lt(a, b) || lex_lt(b, a),
    decreases a.len(),
{
    if a.len() > 0 && b.len() > 0 && a[0] == b[0] {
        lemma_lex_total(a.drop_first(), b.drop_first());
        if a.drop_first() == b.drop_first() {
            assert(a =~= seq![a[0]] + a.drop_first());
            assert(b =~= seq![b[0]] + b.drop_first());
        }
    } else if a.len() == 0 && b.len() == 0 {
        assert(a =~= b);
    }
}

/// Whether `a` sorts strictly before `b`.
pub fn chars_lt(a: &Vec<char>, b: &Vec<char>) -> (r: bool)
    ensures
        r == lex_lt(a@, b@),
{
    let mut i: usize = 0;
    assert(a@.skip(0) =~= a@);
    assert(b@.skip(0) =~= b@);
    while i < a.len() && i < b.len() && a[i] == b[i]
        invariant
            i <= a.len(),
            i <= b.len(),
            lex_lt(a@, b@) == lex_lt(a@.skip(i as int), b@.skip(i as int)),
        decreases a.len() - i,
    {
        assert(a@.skip(i as int).drop_first() =~= a@.skip(i + 1));
        assert(b@.skip(i as int).drop_first() =~= b@.skip(i + 1));
        i = i + 1;
    }
    if i == a.len() {
        i < b.len()
    } else if i == b.len() {
        false
    } else {
        a[i] < b[i]
    }
}

/// Whether string `a` sorts strictly before string `b`.
pub fn str_lt(a: &str, b: &str) -> (r: bool)
    ensures
        r == lex_lt(a@, b@),
{
    let x = chars_of(a);
    let y = chars_of(b);
    chars_lt(&x, &y)
}

/// The views of a list of strings.
pub open spec fn views(v: Seq<String>) -> Seq<Seq<char>> {
    v.map_values(|s: String| s@)
}

/// Strictly increasing: sorted, without repeats.
pub open spec fn strictly_sorted(s: Seq<Seq<char>>) -> bool {
    forall|i: int, j: int| 0 <= i < j < s.len() ==> lex_lt(#[trigger] s[i], #[trigger] s[j])
}

/// Inserts `x` into a strictly sorted list unless it is already there.
pub fn insert_sorted(v: &mut Vec<String>, x: String)
    requires
        strictly_sorted(views(old(v)@)),
    ensures
        strictly_sorted(views(final(v)@)),
        views(final(v)@).to_set() == views(old(v)@).to_set().insert(x@),
{
    let ghost before = views(v@);
    let mut p: usize = 0;
    while p < v.len() && str_lt(v[p].as_str(), x.as_str())
        invariant
            p <= v.len(),
            views(v@) == before,
            strictly_sorted(before),
            forall|k: int| 0 <= k < p ==> lex_lt(#[trigger] before[k], x@),
        decreases v.len() - p,
    {
        p = p + 1;
    }
    if p < v.len() && str_eq_string(&v[p], &x) {
        assert(before.to_set() =~= before.to_set().insert(x@)) by {
            assert(before[p as int] == x@);
        }
        return;
    }
    proof {
        if p < v.len() {
            lemma_lex_total(before[p as int], x@);
            assert(lex_lt(x@, before[p as int]));
        }
    }
    v.insert(p, x);
    let ghost after = views(v@);
    assert(after =~= before.insert(p as int, x@));
    assert forall|i: int, j: int| 0 <= i < j < after.len() implies lex_lt(
        #[trigger] after[i],
        #[trigger] after[j],
    ) by {
        if j < p {
            assert(after[i] == before[i] && after[j] == before[j]);
        } else if j == p {
            assert(after[i] == before[i]);
        } else if i == p {
            assert(after[j] == before[j - 1]);
            if j - 1 > p {
                lemma_lex_transitive(x@, before[p as int], before[j - 1]);
            }
        } else if i < p {
            assert(after[i] == before[i] && after[j] == before[j - 1]);
            if j - 1 >= p {
                lemma_lex_transitive(before[i], x@, before[p as int]);
                if j - 1 > p {
                    lemma_lex_transitive(before[i], before[p as int], before[j - 1]);
                }
            }
        } else {
            assert(after[i] == before[i - 1] && after[j] == before[j - 1]);
        }
    }
    assert(after.to_set() =~= before.to_set().insert(x@)) by {
        assert forall|y: Seq<char>| after.to_set().contains(y) implies before.to_set().insert(
            x@,
        ).contains(y) by {
            let k = choose|k: int| 0 <= k < after.len() && after[k] == y;
            if k < p {
                assert(before[k] == y);
            } else if k > p {
                assert(before[k - 1] == y);
            }
        }
        assert forall|y: Seq<char>| before.to_set().insert(x@).contains(y) implies after.to_set().contains(
            y,
        ) by {
            if y == x@ {
                assert(after[p as int] == y);
            } else {
                let k = choose|k: int| 0 <= k < before.len() && before[k] == y;
                if k < p {
                    assert(after[k] == y);
                } else {
                    assert(after[k + 1] == y);
                }
            }
        }
    }
}

/// Whether two strings hold the same characters.
pub fn str_eq_string(a: &String, b: &String) -> (r: bool)
    ensures
        r == (a@ == b@),
{
    a.eq(b)
}

/// The strings of `a` and `b` together, strictly sorted and without repeats
/// (what collecting both into a `BTreeSet<String>` and iterating it yields).
pub fn sorted_union(a: &Vec<String>, b: &Vec<String>) -> (r: Vec<String>)
    ensures
        strictly_sorted(views(r@)),
        views(r@).to_set() == views(a@).to_set() + views(b@).to_set(),
{
    let mut out: Vec<String> = Vec::new();
    let mut i: usize = 0;
    assert(views(out@).to_set() =~= views(a@).take(0).to_set());
    while i < a.len()
        invariant
            i <= a.len(),
            strictly_sorted(views(out@)),
            views(out@).to_set() == views(a@).take(i as int).to_set(),
        decreases a.len() - i,
    {
        insert_sorted(&mut out, a[i].clone());
        assert(views(a@).take(i + 1) =~= views(a@).take(i as int).push(a@[i as int]@));
        proof {
            views(a@).take(i as int).lemma_push_to_set_commute(a@[i as int]@);
        }
        i = i + 1;
    }
    assert(views(a@).take(a.len() as int) =~= views(a@));
    let mut j: usize = 0;
    assert(views(b@).take(0).to_set() =~= Set::<Seq<char>>::empty());
    while j < b.len()
        invariant
            j <= b.len(),
            strictly_sorted(views(out@)),
            views(out@).to_set() == views(a@).to_set() + views(b@).take(j as int).to_set(),
        decreases b.len() - j,
    {
        insert_sorted(&mut out, b[j].clone());
        assert(views(b@).take(j + 1) =~= views(b@).take(j as int).push(b@[j as int]@));
        proof {
            views(b@).take(j as int).lemma_push_to_set_commute(b@[j as int]@);
        }
        assert(views(out@).to_set() =~= views(a@).to_set() + views(b@).take(j + 1).to_set());
        j = j + 1;
    }
    assert(views(b@).take(b.len() as int) =~= views(b@));
    out
}

} // verus!
