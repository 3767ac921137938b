//! Styled spans: a line of characters, each with a style key, cut into
//! runs of neighbouring characters that share a key, so that each run is
//! drawn with one style.
use vstd::prelude::*;

verus! {

/// The runs of `s`: a character joins the last run when it has the same
/// key, else it starts a new one.
pub open spec fn runs<K>(s: Seq<(K, char)>) -> Seq<(K, Seq<char>)>
    decreases s.len(),
{
    if s.len() == 0 {
        Seq::empty()
    } else {
        let prev = runs(s.drop_last());
        let x = s.last();
        if prev.len() > 0 && prev.last().0 == x.0 {
            prev.update(prev.len() - 1, (prev.last().0, prev.last().1.push(x.1)))
        } else {
            prev.push((x.0, seq![x.1]))
        }
    }
}

/// The run's characters, each with the run's key.
pub open spec fn keyed<K>(r: (K, Seq<char>)) -> Seq<(K, char)> {
    Seq::new(r.1.len(), |i: int| (r.0, r.1[i]))
}

/// The runs read back one character at a time, each with its run's key.
pub open spec fn expanded<K>(rs: Seq<(K, Seq<char>)>) -> Seq<(K, char)>
    decreases rs.len(),
{
    if rs.len() == 0 {
        Seq::empty()
    } else {
        expanded(rs.drop_last()) + keyed(rs.last())
    }
}

/// Runs are maximal groups: none is empty and neighbours differ in key.
pub open spec fn maximal<K>(rs: Seq<(K, Seq<char>)>) -> bool {
    &&& forall|i: int| 0 <= i < rs.len() ==> #[trigger] rs[i].1.len() > 0
    &&& forall|i: int| 0 < i < rs.len() ==> #[trigger] rs[i].0 != rs[i - 1].0
}

proof fn lemma_runs_expand<K>(s: Seq<(K, char)>)
    ensures
        expanded(runs(s)) == s,
    decreases s.len(),
{
    if s.len() > 0 {
        let p = s.drop_last();
        let x = s.last();
        lemma_runs_expand(p);
        let prev = runs(p);
        let r = runs(s);
        assert(p.push(x) =~= s);
        if prev.len() > 0 && prev.last().0 == x.0 {
            let last = (prev.last().0, prev.last().1.push(x.1));
            assert(r == prev.update(prev.len() - 1, last));
            assert(r.drop_last() =~= prev.drop_last());
            assert(r.last() == last);
            assert(keyed(last) =~= keyed(prev.last()).push(x));
            assert(expanded(prev) == expanded(prev.drop_last()) + keyed(prev.last()));
            assert(expanded(r) =~= expanded(prev).push(x));
        } else {
            assert(r == prev.push((x.0, seq![x.1])));
            assert(r.drop_last() =~= prev);
            assert(keyed((x.0, seq![x.1])) =~= seq![x]);
            assert(expanded(r) =~= expanded(prev).push(x));
        }
    }
}

proof fn lemma_runs_maximal<K>(s: Seq<(K, char)>)
    ensures
        maximal(runs(s)),
    decreases s.len(),
{
    if s.len() > 0 {
        let p = s.drop_last();
        let x = s.last();
        lemma_runs_maximal(p);
        let prev = runs(p);
        let r = runs(s);
        if prev.len() > 0 && prev.last().0 == x.0 {
            let last = (prev.last().0, prev.last().1.push(x.1));
            assert(r == prev.update(prev.len() - 1, last));
            assert forall|i: int| 0 <= i < r.len() implies #[trigger] r[i].1.len() > 0 by {
                if i < r.len() - 1 {
                    assert(r[i] == prev[i]);
                }
            }
            assert forall|i: int| 0 < i < r.len() implies #[trigger] r[i].0 != r[i - 1].0 by {
                assert(r[i - 1] == prev[i - 1]);
                assert(r[i].0 == prev[i].0);
            }
        } else {
            assert(r == prev.push((x.0, seq![x.1])));
            assert forall|i: int| 0 <= i < r.len() implies #[trigger] r[i].1.len() > 0 by {
                if i < r.len() - 1 {
                    assert(r[i] == prev[i]);
                }
            }
            assert forall|i: int| 0 < i < r.len() implies #[trigger] r[i].0 != r[i - 1].0 by {
                assert(r[i - 1] == prev[i - 1]);
                if i < r.len() - 1 {
                    assert(r[i] == prev[i]);
                }
            }
        }
    }
}

/// Law of run splitting: read back one character at a time, the runs give
/// the line again, every character with its own key; no run is empty; and
/// neighbouring runs differ in key, so no two runs could be one.
pub proof fn lemma_runs_laws<K>(s: Seq<(K, char)>)
    ensures
        expanded(runs(s)) == s,
        maximal(runs(s)),
{
    lemma_runs_expand(s);
    lemma_runs_maximal(s);
}

/// Extending a line by one character extends its runs: the open run grows
/// when the key is its own, else it is closed and a new one opens.
pub proof fn lemma_runs_step<K>(s: Seq<(K, char)>, x: (K, char))
    requires
        runs(s).len() > 0,
    ensures
        runs(s.push(x)) == (if runs(s).last().0 == x.0 {
            runs(s).drop_last().push((x.0, runs(s).last().1.push(x.1)))
        } else {
            runs(s).push((x.0, seq![x.1]))
        }),
{
    let t = s.push(x);
    assert(t.drop_last() =~= s);
    assert(t.last() == x);
    let prev = runs(s);
    if prev.last().0 == x.0 {
        assert(prev.update(prev.len() - 1, (prev.last().0, prev.last().1.push(x.1)))
            =~= prev.drop_last().push((x.0, prev.last().1.push(x.1))));
    }
}

/// The runs of a one-character line.
pub proof fn lemma_runs_single<K>(x: (K, char))
    ensures
        runs(seq![x]) == seq![(x.0, seq![x.1])],
{
    let t = seq![x];
    assert(t.drop_last() =~= Seq::<(K, char)>::empty());
    assert(t.last() == x);
    assert(runs(Seq::<(K, char)>::empty()).len() == 0);
    assert(Seq::<(K, Seq<char>)>::empty().push((x.0, seq![x.1])) =~= seq![(x.0, seq![x.1])]);
}

/// Reading back two lists of runs one after the other.
pub proof fn lemma_expanded_concat<K>(a: Seq<(K, Seq<char>)>, b: Seq<(K, Seq<char>)>)
    ensures
        expanded(a + b) == expanded(a) + expanded(b),
    decreases b.len(),
{
    if b.len() == 0 {
        assert(a + b =~= a);
        assert(expanded(a) + expanded(b) =~= expanded(a));
    } else {
        lemma_expanded_concat(a, b.drop_last());
        assert((a + b).drop_last() =~= a + b.drop_last());
        assert((a + b).last() == b.last());
        assert(expanded(a) + expanded(b) =~= expanded(a) + expanded(b.drop_last()) + keyed(
            b.last(),
        ));
    }
}

/// Character `k` of run `i` stands, read back, after the characters of the
/// runs before it.
pub proof fn lemma_expanded_index<K>(rs: Seq<(K, Seq<char>)>, i: int, k: int)
    requires
        0 <= i < rs.len(),
        0 <= k < rs[i].1.len(),
    ensures
        expanded(rs.take(i)).len() + k < expanded(rs).len(),
        expanded(rs)[expanded(rs.take(i)).len() + k] == (rs[i].0, rs[i].1[k]),
{
    let one = seq![rs[i]];
    assert(one.drop_last() =~= Seq::<(K, Seq<char>)>::empty());
    assert(one.last() == rs[i]);
    assert(expanded(Seq::<(K, Seq<char>)>::empty()) == Seq::<(K, char)>::empty());
    assert(expanded(one) =~= keyed(rs[i]));
    assert(rs =~= rs.take(i) + (one + rs.skip(i + 1)));
    lemma_expanded_concat(rs.take(i), one + rs.skip(i + 1));
    lemma_expanded_concat(one, rs.skip(i + 1));
}

} // verus!
