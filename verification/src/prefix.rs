//! Prefix matching over candidate vocabularies.
//!
//! A candidate domain is an ordered sequence of strings; completing a
//! partially typed word keeps exactly the candidates that start with that
//! word, in the domain's own order.

use vstd::prelude::*;
use vstd::string::StrSliceExecFns;

verus! {

/// The candidates of `cands` that start with `p`, in their original order.
pub open spec fn matches_of(cands: Seq<Seq<char>>, p: Seq<char>) -> Seq<Seq<char>>
    decreases cands.len(),
{
    if cands.len() == 0 {
        Seq::<Seq<char>>::empty()
    } else {
        let init = matches_of(cands.drop_last(), p);
        if p.is_prefix_of(cands.last()) {
            init.push(cands.last())
        } else {
            init
        }
    }
}

/// A string belongs to the filtered domain exactly when it belongs to the
/// domain and starts with the typed prefix.
pub proof fn lemma_matches_of_characterizes(cands: Seq<Seq<char>>, p: Seq<char>)
    ensures
        forall|x: Seq<char>|
            #[trigger] matches_of(cands, p).contains(x) <==> (cands.contains(x)
                && p.is_prefix_of(x)),
    decreases cands.len(),
{
    if cands.len() == 0 {
    } else {
        lemma_matches_of_characterizes(cands.drop_last(), p);
        let init = matches_of(cands.drop_last(), p);
        let res = matches_of(cands, p);
        assert forall|x: Seq<char>| #[trigger] res.contains(x) implies (cands.contains(x)
            && p.is_prefix_of(x)) by {
            let j = choose|j: int| 0 <= j < res.len() && res[j] == x;
            if p.is_prefix_of(cands.last()) && j == res.len() - 1 {
                assert(cands[cands.len() - 1] == x);
            } else {
                assert(init.contains(x));
                let k = choose|k: int| 0 <= k < init.len() && init[k] == x;
                assert(cands.drop_last()[choose|m: int|
                    0 <= m < cands.drop_last().len() && cands.drop_last()[m] == x] == x);
                let m = choose|m: int| 0 <= m < cands.drop_last().len() && cands.drop_last()[m]
                    == x;
                assert(cands[m] == x);
            }
        };
        assert forall|x: Seq<char>| cands.contains(x) && p.is_prefix_of(x) implies #[trigger] res
            .contains(x) by {
            let j = choose|j: int| 0 <= j < cands.len() && cands[j] == x;
            if j == cands.len() - 1 {
                assert(res[res.len() - 1] == x);
            } else {
                assert(cands.drop_last()[j] == x);
                assert(cands.drop_last().contains(x));
                assert(init.contains(x));
                let k = choose|k: int| 0 <= k < init.len() && init[k] == x;
                assert(res[k] == x);
            }
        };
    }
}

/// Being-a-prefix is transitive.
pub proof fn lemma_prefix_transitive(a: Seq<char>, b: Seq<char>, c: Seq<char>)
    requires
        a.is_prefix_of(b),
        b.is_prefix_of(c),
    ensures
        a.is_prefix_of(c),
{
    assert forall|i: int| 0 <= i < a.len() implies c.subrange(0, a.len() as int)[i] == a[i] by {
        assert(b.subrange(0, a.len() as int)[i] == a[i]);
        assert(c.subrange(0, b.len() as int)[i] == b[i]);
    }
    assert(a =~= c.subrange(0, a.len() as int));
}

/// Lengthening the typed prefix can only narrow the filtered domain: every
/// suggestion for the longer prefix is also a suggestion for the shorter one.
pub proof fn lemma_matches_of_monotonic(cands: Seq<Seq<char>>, p1: Seq<char>, p2: Seq<char>)
    requires
        p1.is_prefix_of(p2),
    ensures
        forall|x: Seq<char>|
            #[trigger] matches_of(cands, p2).contains(x) ==> matches_of(cands, p1).contains(x),
{
    lemma_matches_of_characterizes(cands, p1);
    lemma_matches_of_characterizes(cands, p2);
    assert forall|x: Seq<char>| #[trigger] matches_of(cands, p2).contains(x) implies matches_of(
        cands,
        p1,
    ).contains(x) by {
        lemma_prefix_transitive(p1, p2, x);
    }
}

/// Character-for-character equality of two string slices.
pub fn str_eq(a: &str, b: &str) -> (r: bool)
    ensures
        r == (a@ == b@),
{
    let alen = a.unicode_len();
    let blen = b.unicode_len();
    if alen != blen {
        return false;
    }
    let mut i: usize = 0;
    while i < alen
        invariant
            alen == a@.len(),
            blen == b@.len(),
            alen == blen,
            0 <= i <= alen,
            forall|j: int| 0 <= j < i ==> a@[j] == b@[j],
        decreases alen - i,
    {
        let ca = a.get_char(i);
        let cb = b.get_char(i);
        if ca != cb {
            proof {
                assert(a@[i as int] != b@[i as int]);
            }
            return false;
        }
        i += 1;
    }
    proof {
        assert(a@ =~= b@);
    }
    true
}

/// Whether `s` starts with the prefix `p`.
pub fn has_prefix(s: &str, p: &str) -> (r: bool)
    ensures
        r == p@.is_prefix_of(s@),
{
    let slen = s.unicode_len();
    let plen = p.unicode_len();
    if plen > slen {
        return false;
    }
    let mut i: usize = 0;
    while i < plen
        invariant
            slen == s@.len(),
            plen == p@.len(),
            plen <= slen,
            0 <= i <= plen,
            forall|j: int| 0 <= j < i ==> p@[j] == s@[j],
        decreases plen - i,
    {
        let cp = p.get_char(i);
        let cs = s.get_char(i);
        if cp != cs {
            proof {
                assert(s@.subrange(0, p@.len() as int)[i as int] == s@[i as int]);
                assert(p@[i as int] != s@[i as int]);
            }
            return false;
        }
        i += 1;
    }
    proof {
        assert(p@ =~= s@.subrange(0, p@.len() as int));
    }
    true
}

/// Keep exactly the candidates that start with `p`, in their original order.
pub fn filter_by_prefix(cands: &Vec<String>, p: &str) -> (r: Vec<String>)
    ensures
        r.deep_view() == matches_of(cands.deep_view(), p@),
{
    let mut r: Vec<String> = Vec::new();
    let mut i: usize = 0;
    while i < cands.len()
        invariant
            0 <= i <= cands.len(),
            r.deep_view() == matches_of(cands.deep_view().take(i as int), p@),
        decreases cands.len() - i,
    {
        let ghost c = cands.deep_view();
        let ghost r_old = r.deep_view();
        let keep = has_prefix(cands[i].as_str(), p);
        if keep {
            r.push(cands[i].clone());
        }
        proof {
            assert(c.take(i + 1).drop_last() =~= c.take(i as int));
            assert(c.take(i + 1).last() == c[i as int]);
            assert(c.take(i + 1).len() == i + 1);
            if keep {
                assert(r.deep_view() =~= r_old.push(c[i as int]));
            }
            assert(r.deep_view() == matches_of(c.take(i + 1), p@));
        }
        i += 1;
    }
    proof {
        assert(cands.deep_view().take(cands.len() as int) =~= cands.deep_view());
    }
    r
}

/// Whether some member of `v` is exactly the word `w`.
pub fn contains_str(v: &Vec<String>, w: &str) -> (r: bool)
    ensures
        r == v.deep_view().contains(w@),
{
    let mut i: usize = 0;
    while i < v.len()
        invariant
            0 <= i <= v.len(),
            forall|j: int| 0 <= j < i ==> v.deep_view()[j] != w@,
        decreases v.len() - i,
    {
        if str_eq(v[i].as_str(), w) {
            proof {
                assert(v.deep_view()[i as int] == w@);
            }
            return true;
        }
        i += 1;
    }
    proof {
        assert(!v.deep_view().contains(w@)) by {
            if v.deep_view().contains(w@) {
                let j = choose|j: int| 0 <= j < v.deep_view().len() && v.deep_view()[j] == w@;
                assert(v.deep_view()[j] != w@);
            }
        }
    }
    false
}

} // verus!
