//! Sorted, duplicate-free lists of names, ordered as `String`'s `Ord` orders them
//! (character by character, a proper prefix first).
use crate::text::{owned, str_eq, strip_prefix, strip_spec};
use vstd::prelude::*;
use vstd::string::*;

verus! {

pub open spec fn string_views(v: Seq<String>) -> Seq<Seq<char>> {
    v.map_values(|s: String| s@)
}

/// `a` and `b` agree on their first `k` characters.
pub open spec fn agree_upto(a: Seq<char>, b: Seq<char>, k: int) -> bool {
    0 <= k <= a.len() && k <= b.len() && forall|i: int| 0 <= i < k ==> a[i] == b[i]
}

/// `a` and `b` first differ at `k`, where `a` is the smaller.
pub open spec fn lt_at(a: Seq<char>, b: Seq<char>, k: int) -> bool {
    agree_upto(a, b, k) && k < b.len() && (k == a.len() || a[k] < b[k])
}

/// Lexicographic order on character sequences.
pub open spec fn lex_lt(a: Seq<char>, b: Seq<char>) -> bool {
    exists|k: int| lt_at(a, b, k)
}

/// Strictly increasing, hence without duplicates.
pub open spec fn strictly_sorted(s: Seq<Seq<char>>) -> bool {
    forall|i: int, j: int| 0 <= i < j < s.len() ==> lex_lt(s[i], s[j])
}

pub proof fn lemma_lex_irreflexive(a: Seq<char>)
    ensures
        !lex_lt(a, a),
{
    if lex_lt(a, a) {
        let k = choose|k: int| lt_at(a, a, k);
        assert(k < a.len());
    }
}

pub proof fn lemma_lex_total(a: Seq<char>, b: Seq<char>)
    ensures
        a == b || lex_lt(a, b) || lex_lt(b, a),
{
    if a != b {
        let m = if a.len() < b.len() {
            a.len() as int
        } else {
            b.len() as int
        };
        if forall|i: int| 0 <= i < m ==> a[i] == b[i] {
            if a.len() < b.len() {
                assert(lt_at(a, b, m));
            } else if b.len() < a.len() {
                assert(lt_at(b, a, m));
            } else {
                assert(a =~= b);
            }
        } else {
            let k = choose|k: int| 0 <= k < m && a[k] != b[k] && forall|i: int| 0 <= i < k ==> a[i] == b[i];
            lemma_first_difference(a, b, m);
            if a[k] < b[k] {
                assert(lt_at(a, b, k));
            } else {
                assert(lt_at(b, a, k));
            }
        }
    }
}

proof fn lemma_first_difference(a: Seq<char>, b: Seq<char>, m: int)
    requires
        0 <= m <= a.len(),
        m <= b.len(),
        exists|i: int| 0 <= i < m && a[i] != b[i],
    ensures
        exists|k: int| 0 <= k < m && a[k] != b[k] && forall|i: int| 0 <= i < k ==> a[i] == b[i],
    decreases m,
{
    if exists|i: int| 0 <= i < m - 1 && a[i] != b[i] {
        lemma_first_difference(a, b, m - 1);
        let k = choose|k: int| 0 <= k < m - 1 && a[k] != b[k] && forall|i: int| 0 <= i < k ==> a[i] == b[i];
        assert(0 <= k < m && a[k] != b[k]);
    } else {
        assert(a[m - 1] != b[m - 1]);
        assert(forall|i: int| 0 <= i < m - 1 ==> a[i] == b[i]);
    }
}

pub proof fn lemma_lex_transitive(a: Seq<char>, b: Seq<char>, c: Seq<char>)
    requires
        lex_lt(a, b),
        lex_lt(b, c),
    ensures
        lex_lt(a, c),
{
    let k1 = choose|k: int| lt_at(a, b, k);
    let k2 = choose|k: int| lt_at(b, c, k);
    if k1 < k2 {
        assert(lt_at(a, c, k1));
    } else if k2 < k1 {
        assert(a[k2] == b[k2]);
        assert(lt_at(a, c, k2));
    } else {
        assert(lt_at(a, c, k1));
    }
}

/// Whether `a` comes before `b`.
pub fn lex_less(a: &str, b: &str) -> (r: bool)
    ensures
        r == lex_lt(a@, b@),
{
    let n = a.unicode_len();
    let m = b.unicode_len();
    let mut i: usize = 0;
    while i < n && i < m && a.get_char(i) == b.get_char(i)
        invariant
            n == a@.len(),
            m == b@.len(),
            agree_upto(a@, b@, i as int),
        decreases n - i,
    {
        i = i + 1;
    }
    if i == n && i == m {
        proof {
            assert(a@ =~= b@);
            lemma_lex_irreflexive(a@);
        }
        false
    } else if i == n {
        assert(lt_at(a@, b@, i as int));
        true
    } else if i == m {
        proof {
            assert(lt_at(b@, a@, i as int));
            lemma_lex_asymmetric(a@, b@);
        }
        false
    } else if a.get_char(i) < b.get_char(i) {
        assert(lt_at(a@, b@, i as int));
        true
    } else {
        proof {
            assert(lt_at(b@, a@, i as int));
            lemma_lex_asymmetric(a@, b@);
        }
        false
    }
}

pub proof fn lemma_lex_asymmetric(a: Seq<char>, b: Seq<char>)
    requires
        lex_lt(b, a),
    ensures
        !lex_lt(a, b),
{
    if lex_lt(a, b) {
        lemma_lex_transitive(a, b, a);
        lemma_lex_irreflexive(a);
    }
}

/// Adds `x` to a strictly sorted list, keeping it strictly sorted.
pub fn insert_name(v: &mut Vec<String>, x: &str)
    requires
        strictly_sorted(string_views(old(v)@)),
    ensures
        strictly_sorted(string_views(final(v)@)),
        string_views(final(v)@).to_set() == string_views(old(v)@).to_set().insert(x@),
{
    let ghost old_views = string_views(v@);
    let mut i: usize = 0;
    while i < v.len() && lex_less(v[i].as_str(), x)
        invariant
            i <= v.len(),
            old_views == string_views(v@),
            strictly_sorted(old_views),
            forall|j: int| 0 <= j < i ==> lex_lt(old_views[j], x@),
        decreases v.len() - i,
    {
        i = i + 1;
    }
    if i < v.len() && str_eq(v[i].as_str(), x) {
        proof {
            assert(old_views.to_set().insert(x@) =~= old_views.to_set()) by {
                assert(old_views[i as int] == x@);
            }
        }
        return ;
    }
    proof {
        if i < v.len() {
            lemma_lex_total(old_views[i as int], x@);
            assert(lex_lt(x@, old_views[i as int]));
            assert forall|j: int| i <= j < old_views.len() implies lex_lt(x@, old_views[j]) by {
                if j > i {
                    lemma_lex_transitive(x@, old_views[i as int], old_views[j]);
                }
            }
        }
    }
    v.insert(i, owned(x));
    proof {
        let nv = string_views(v@);
        assert(nv =~= old_views.insert(i as int, x@));
        assert forall|a: int, b: int| 0 <= a < b < nv.len() implies lex_lt(nv[a], nv[b]) by {
            if a < i && b > i {
                assert(nv[b] == old_views[b - 1]);
            }
        }
        assert(nv.to_set() =~= old_views.to_set().insert(x@)) by {
            assert forall|y: Seq<char>| nv.contains(y) <==> old_views.contains(y) || y == x@ by {
                if nv.contains(y) {
                    let k = choose|k: int| 0 <= k < nv.len() && nv[k] == y;
                    if k < i {
                        assert(old_views[k] == y);
                    } else if k > i {
                        assert(old_views[k - 1] == y);
                    }
                }
                if old_views.contains(y) {
                    let k = choose|k: int| 0 <= k < old_views.len() && old_views[k] == y;
                    if k < i {
                        assert(nv[k] == y);
                    } else {
                        assert(nv[k + 1] == y);
                    }
                }
                if y == x@ {
                    assert(nv[i as int] == y);
                }
            }
        }
    }
}

/// The members of `s` that start with `p`, each without `p`, in order.
pub open spec fn strip_all(s: Seq<Seq<char>>, p: Seq<char>) -> Seq<Seq<char>>
    decreases s.len(),
{
    if s.len() == 0 {
        Seq::empty()
    } else {
        let rest = strip_all(s.drop_last(), p);
        match strip_spec(s.last(), p) {
            Some(x) => rest.push(x),
            None => rest,
        }
    }
}

pub proof fn lemma_strip_all_push(s: Seq<Seq<char>>, a: Seq<char>, p: Seq<char>)
    ensures
        strip_all(s.push(a), p) == match strip_spec(a, p) {
            Some(x) => strip_all(s, p).push(x),
            None => strip_all(s, p),
        },
{
    assert(s.push(a).drop_last() =~= s);
}

/// A name is among the stripped members exactly when some member is it with `p` in front.
pub proof fn lemma_strip_all_contains(s: Seq<Seq<char>>, p: Seq<char>, x: Seq<char>)
    ensures
        strip_all(s, p).contains(x) <==> exists|i: int| 0 <= i < s.len() && strip_spec(s[i], p) == Some(x),
    decreases s.len(),
{
    if s.len() > 0 {
        let t = s.drop_last();
        lemma_strip_all_contains(t, p, x);
        let st = strip_all(t, p);
        assert(strip_all(s, p) == match strip_spec(s.last(), p) {
            Some(y) => st.push(y),
            None => st,
        });
        if exists|i: int| 0 <= i < s.len() && strip_spec(s[i], p) == Some(x) {
            let i = choose|i: int| 0 <= i < s.len() && strip_spec(s[i], p) == Some(x);
            if i < s.len() - 1 {
                assert(t[i] == s[i]);
                assert(st.contains(x));
                let j = choose|j: int| 0 <= j < st.len() && st[j] == x;
                match strip_spec(s.last(), p) {
                    Some(y) => {
                        assert(st.push(y)[j] == x);
                    },
                    None => {},
                }
            } else {
                assert(st.push(x)[st.len() as int] == x);
            }
        }
        if strip_all(s, p).contains(x) {
            let j = choose|j: int| 0 <= j < strip_all(s, p).len() && strip_all(s, p)[j] == x;
            match strip_spec(s.last(), p) {
                Some(y) => {
                    if j < st.len() {
                        assert(st[j] == x);
                        let i = choose|i: int| 0 <= i < t.len() && strip_spec(t[i], p) == Some(x);
                        assert(s[i] == t[i]);
                    } else {
                        assert(y == x);
                        assert(strip_spec(s[s.len() - 1], p) == Some(x));
                    }
                },
                None => {
                    assert(st[j] == x);
                    let i = choose|i: int| 0 <= i < t.len() && strip_spec(t[i], p) == Some(x);
                    assert(s[i] == t[i]);
                },
            }
        }
    }
}

/// Each member of `s` that starts with `p`, without `p`.
pub fn strip_each(s: &Vec<String>, p: &str) -> (r: Vec<String>)
    ensures
        string_views(r@) == strip_all(string_views(s@), p@),
{
    let ghost sv = string_views(s@);
    let mut out: Vec<String> = Vec::new();
    let mut i: usize = 0;
    proof {
        assert(sv.subrange(0, 0) =~= Seq::<Seq<char>>::empty());
        assert(string_views(out@) =~= Seq::<Seq<char>>::empty());
    }
    while i < s.len()
        invariant
            sv == string_views(s@),
            i <= s.len(),
            string_views(out@) == strip_all(sv.subrange(0, i as int), p@),
        decreases s.len() - i,
    {
        proof {
            assert(sv.subrange(0, i + 1) =~= sv.subrange(0, i as int).push(sv[i as int]));
            lemma_strip_all_push(sv.subrange(0, i as int), sv[i as int], p@);
        }
        match strip_prefix(s[i].as_str(), p) {
            Some(x) => {
                let ghost before = string_views(out@);
                out.push(x);
                proof {
                    assert(string_views(out@) =~= before.push(x@));
                }
            },
            None => {},
        }
        i = i + 1;
    }
    proof {
        assert(sv.subrange(0, s.len() as int) =~= sv);
    }
    out
}

/// Adds every name of `xs` to a strictly sorted list.
pub fn insert_names(v: &mut Vec<String>, xs: &Vec<String>)
    requires
        strictly_sorted(string_views(old(v)@)),
    ensures
        strictly_sorted(string_views(final(v)@)),
        string_views(final(v)@).to_set() == string_views(old(v)@).to_set() + string_views(xs@).to_set(),
{
    let ghost start = string_views(v@).to_set();
    let ghost xv = string_views(xs@);
    let mut i: usize = 0;
    proof {
        assert(start + xv.subrange(0, 0).to_set() =~= start);
    }
    while i < xs.len()
        invariant
            xv == string_views(xs@),
            i <= xs.len(),
            strictly_sorted(string_views(v@)),
            string_views(v@).to_set() == start + xv.subrange(0, i as int).to_set(),
        decreases xs.len() - i,
    {
        insert_name(v, xs[i].as_str());
        proof {
            assert(xv.subrange(0, i + 1) =~= xv.subrange(0, i as int).push(xv[i as int]));
            xv.subrange(0, i as int).lemma_push_to_set_commute(xv[i as int]);
            assert(string_views(v@).to_set() =~= start + xv.subrange(0, i + 1).to_set());
        }
        i = i + 1;
    }
    proof {
        assert(xv.subrange(0, xs.len() as int) =~= xv);
    }
}

/// The names of `xs`, sorted, each once.
pub fn sorted_unique(xs: &Vec<String>) -> (r: Vec<String>)
    ensures
        strictly_sorted(string_views(r@)),
        string_views(r@).to_set() == string_views(xs@).to_set(),
{
    let mut v: Vec<String> = Vec::new();
    proof {
        assert(string_views(v@) =~= Seq::<Seq<char>>::empty());
        assert(string_views(v@).to_set() =~= Set::<Seq<char>>::empty());
    }
    insert_names(&mut v, xs);
    proof {
        assert(Set::<Seq<char>>::empty() + string_views(xs@).to_set() =~= string_views(xs@).to_set());
    }
    v
}

} // verus!
