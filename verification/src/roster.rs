//! The difference between two rider lists.

use vstd::prelude::*;
use vstd::hash_set::StringHashSet;

verus! {

/// The members of `a` that `b` lacks, each once, in the order in which `a`
/// first names them.
pub open spec fn only_in(a: Seq<Seq<char>>, b: Seq<Seq<char>>) -> Seq<Seq<char>>
    decreases a.len(),
{
    if a.len() == 0 {
        Seq::empty()
    } else {
        let init = only_in(a.drop_last(), b);
        if b.contains(a.last()) || init.contains(a.last()) {
            init
        } else {
            init.push(a.last())
        }
    }
}

/// `only_in(a, b)` names nobody twice and holds exactly the members of `a`
/// that are no members of `b`.
pub proof fn lemma_only_in(a: Seq<Seq<char>>, b: Seq<Seq<char>>)
    ensures
        only_in(a, b).no_duplicates(),
        forall|x: Seq<char>| #[trigger]
            only_in(a, b).contains(x) <==> a.contains(x) && !b.contains(x),
        only_in(a, b).to_set() == a.to_set().difference(b.to_set()),
    decreases a.len(),
{
    let r = only_in(a, b);
    if a.len() == 0 {
        assert(r.to_set() =~= a.to_set().difference(b.to_set()));
    } else {
        let init = only_in(a.drop_last(), b);
        lemma_only_in(a.drop_last(), b);
        assert forall|x: Seq<char>| #[trigger] r.contains(x) <==> a.contains(x) && !b.contains(
            x,
        ) by {
            if r.contains(x) {
                let i = choose|i: int| 0 <= i < r.len() && r[i] == x;
                if i < init.len() {
                    assert(init.contains(x));
                    let j = choose|j: int| 0 <= j < a.drop_last().len() && a.drop_last()[j] == x;
                    assert(a[j] == x);
                } else {
                    assert(x == a.last());
                    assert(a[a.len() - 1] == x);
                }
            }
            if a.contains(x) && !b.contains(x) {
                let j = choose|j: int| 0 <= j < a.len() && a[j] == x;
                if j < a.len() - 1 {
                    assert(a.drop_last()[j] == x);
                    assert(init.contains(x));
                    let i = choose|i: int| 0 <= i < init.len() && init[i] == x;
                    assert(r[i] == x);
                } else {
                    if init.contains(x) {
                        let i = choose|i: int| 0 <= i < init.len() && init[i] == x;
                        assert(r[i] == x);
                    } else {
                        assert(r[r.len() - 1] == x);
                    }
                }
            }
        }
        assert(r.to_set() =~= a.to_set().difference(b.to_set()));
    }
}

/// Two lists that name the same riders differ by nobody, whatever the order
/// and however often a rider is named.
pub proof fn lemma_same_riders_no_change(a: Seq<Seq<char>>, b: Seq<Seq<char>>)
    requires
        a.to_set() == b.to_set(),
    ensures
        only_in(a, b) == Seq::<Seq<char>>::empty(),
        only_in(b, a) == Seq::<Seq<char>>::empty(),
{
    lemma_only_in(a, b);
    lemma_only_in(b, a);
    assert(only_in(a, b).len() == 0) by {
        if only_in(a, b).len() > 0 {
            let x = only_in(a, b)[0];
            assert(only_in(a, b).contains(x));
            assert(a.to_set().contains(x));
            assert(b.to_set().contains(x));
        }
    }
    assert(only_in(b, a).len() == 0) by {
        if only_in(b, a).len() > 0 {
            let x = only_in(b, a)[0];
            assert(only_in(b, a).contains(x));
            assert(b.to_set().contains(x));
            assert(a.to_set().contains(x));
        }
    }
    assert(only_in(a, b) =~= Seq::<Seq<char>>::empty());
    assert(only_in(b, a) =~= Seq::<Seq<char>>::empty());
}

/// The riders that a roster change took out of a car and those it put in.
#[derive(Debug)]
pub struct RiderDiff {
    pub removed: Vec<String>,
    pub added: Vec<String>,
}

pub struct RiderDiffView {
    pub removed: Seq<Seq<char>>,
    pub added: Seq<Seq<char>>,
}

impl View for RiderDiff {
    type V = RiderDiffView;

    open spec fn view(&self) -> RiderDiffView {
        RiderDiffView { removed: self.removed.deep_view(), added: self.added.deep_view() }
    }
}

/// The change from the riders `old` to the riders `new`.
pub open spec fn diff_of(old: Seq<Seq<char>>, new: Seq<Seq<char>>) -> RiderDiffView {
    RiderDiffView { removed: only_in(old, new), added: only_in(new, old) }
}

/// The set of the names in `ids`.
fn name_set(ids: &Vec<String>) -> (s: StringHashSet)
    ensures
        s@ == ids.deep_view().to_set(),
{
    let mut s = StringHashSet::new();
    let mut i: usize = 0;
    while i < ids.len()
        invariant
            i <= ids.len(),
            s@ == ids.deep_view().take(i as int).to_set(),
        decreases ids.len() - i,
    {
        s.insert(ids[i].clone());
        proof {
            let dv = ids.deep_view();
            assert(dv.take(i + 1) =~= dv.take(i as int).push(dv[i as int]));
            assert(dv.take(i + 1).to_set() =~= dv.take(i as int).to_set().insert(dv[i as int])) by {
                let t = dv.take(i as int);
                let x = dv[i as int];
                assert forall|y: Seq<char>| t.push(x).contains(y) <==> t.contains(y) || y == x by {
                    if t.contains(y) {
                        let j = choose|j: int| 0 <= j < t.len() && t[j] == y;
                        assert(t.push(x)[j] == y);
                    }
                    if y == x {
                        assert(t.push(x)[t.len() as int] == y);
                    }
                }
            }
        }
        i += 1;
    }
    proof {
        assert(ids.deep_view().take(ids.len() as int) =~= ids.deep_view());
    }
    s
}

/// The members of `a` that `b` lacks, each once, in the order of `a`.
pub fn names_only_in(a: &Vec<String>, b: &Vec<String>) -> (r: Vec<String>)
    ensures
        r.deep_view() == only_in(a.deep_view(), b.deep_view()),
{
    let others = name_set(b);
    let mut seen = StringHashSet::new();
    let mut out: Vec<String> = Vec::new();
    let mut i: usize = 0;
    proof {
        assert(a.deep_view().take(0) =~= Seq::<Seq<char>>::empty());
        assert(out.deep_view() =~= Seq::<Seq<char>>::empty());
        assert(out.deep_view().to_set() =~= Set::<Seq<char>>::empty());
    }
    while i < a.len()
        invariant
            i <= a.len(),
            others@ == b.deep_view().to_set(),
            seen@ == out.deep_view().to_set(),
            out.deep_view() == only_in(a.deep_view().take(i as int), b.deep_view()),
        decreases a.len() - i,
    {
        let ghost before = out.deep_view();
        let ghost dv = a.deep_view();
        proof {
            assert(dv.take(i + 1).drop_last() =~= dv.take(i as int));
            assert(dv.take(i + 1).last() == dv[i as int]);
        }
        let name = &a[i];
        if !others.contains(name.as_str()) && !seen.contains(name.as_str()) {
            seen.insert(name.clone());
            out.push(name.clone());
            proof {
                let x = dv[i as int];
                assert(out.deep_view() =~= before.push(x));
                assert(before.push(x).to_set() =~= before.to_set().insert(x)) by {
                    assert forall|y: Seq<char>|
                        before.push(x).contains(y) <==> before.contains(y) || y == x by {
                        if before.contains(y) {
                            let j = choose|j: int| 0 <= j < before.len() && before[j] == y;
                            assert(before.push(x)[j] == y);
                        }
                        if y == x {
                            assert(before.push(x)[before.len() as int] == y);
                        }
                    }
                }
            }
        }
        i += 1;
    }
    proof {
        assert(a.deep_view().take(a.len() as int) =~= a.deep_view());
    }
    out
}

/// The riders that the change from `old` to `new` removed and added.
pub fn rider_diff(old: &Vec<String>, new: &Vec<String>) -> (d: RiderDiff)
    ensures
        d@ == diff_of(old.deep_view(), new.deep_view()),
        old.deep_view().to_set() == new.deep_view().to_set() ==> d.removed.len() == 0
            && d.added.len() == 0,
{
    let removed = names_only_in(old, new);
    let added = names_only_in(new, old);
    proof {
        if old.deep_view().to_set() == new.deep_view().to_set() {
            lemma_same_riders_no_change(old.deep_view(), new.deep_view());
            assert(removed.deep_view().len() == removed.len());
            assert(added.deep_view().len() == added.len());
        }
    }
    RiderDiff { removed, added }
}

} // verus!
