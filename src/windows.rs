use std::collections::BTreeSet;
use vstd::prelude::*;
use vstd::std_specs::btree::{increasing_seq, spec_btree_keys_iter};
use vstd::std_specs::cmp::OrdSpec;
use vstd::std_specs::iter::IteratorSpec;

verus! {

broadcast use vstd::std_specs::btree::group_btree_axioms, vstd::laws_cmp::group_laws_cmp;

pub type Window = u64;

/// The windows of `s` in ascending handle order.
pub fn sorted_windows(s: &BTreeSet<Window>) -> (r: Vec<Window>)
    ensures
        r@.to_set() == s@,
        r@.no_duplicates(),
        forall|i: int, j: int| 0 <= i < j < r@.len() ==> r@[i] < r@[j],
{
    let ghost keys = spec_btree_keys_iter(s).remaining().map_values(|x: &Window| *x);
    let mut r: Vec<Window> = Vec::new();
    for w in it: s.iter()
        invariant
            it.seq().map_values(|x: &Window| *x) == keys,
            r@ == keys.take(it.index() as int),
    {
        r.push(*w);
        assert(keys[it.index() as int] == *w);
        assert(r@ =~= keys.take(it.index() + 1));
    }
    assert(r@ =~= keys);
    assert(keys.len() == s@.len());
    assert(vstd::laws_cmp::obeys_cmp::<u64>());
    assert(vstd::laws_cmp::obeys_cmp::<&u64>());
    assert(increasing_seq(spec_btree_keys_iter(s).remaining()));
    assert(spec_btree_keys_iter(s).remaining().unref() =~= keys);
    assert forall|i: int, j: int| 0 <= i < j < r@.len() implies r@[i] < r@[j] by {
        let a = spec_btree_keys_iter(s).remaining();
        assert(OrdSpec::cmp_spec(&a[i], &a[j]) is Less);
    }
    r
}

/// The managed windows of each virtual desktop, and the windows exempt from tiling.
/// Desktops are numbered from 0; one that was never used is empty.
pub struct WindowSets {
    desktops: Vec<BTreeSet<Window>>,
    floating: BTreeSet<Window>,
}

impl WindowSets {
    /// The windows on desktop `i`.
    pub closed spec fn desktop(&self, i: int) -> Set<Window> {
        if 0 <= i < self.desktops@.len() {
            self.desktops@[i]@
        } else {
            Set::empty()
        }
    }

    /// The windows that the tiler skips, whatever desktop they are on.
    pub closed spec fn floating(&self) -> Set<Window> {
        self.floating@
    }

    /// A window is on at most one desktop.
    pub open spec fn wf(&self) -> bool {
        forall|i: int, j: int, w: Window|
            i != j && #[trigger] self.desktop(i).contains(w) ==> !#[trigger] self.desktop(j).contains(
                w,
            )
    }

    pub fn new() -> (r: WindowSets)
        ensures
            r.wf(),
            forall|i: int| #[trigger] r.desktop(i) == Set::<Window>::empty(),
            r.floating() == Set::<Window>::empty(),
    {
        WindowSets { desktops: Vec::new(), floating: BTreeSet::new() }
    }

    /// A copy of the windows on desktop `i`.
    pub fn get_desktop(&self, i: usize) -> (r: BTreeSet<Window>)
        ensures
            r@ == self.desktop(i as int),
    {
        if i < self.desktops.len() {
            self.desktops[i].clone()
        } else {
            BTreeSet::new()
        }
    }

    /// The windows on desktop `i` in ascending handle order.
    pub fn windows_of(&self, i: usize) -> (r: Vec<Window>)
        ensures
            r@.to_set() == self.desktop(i as int),
            r@.no_duplicates(),
            forall|a: int, b: int| 0 <= a < b < r@.len() ==> r@[a] < r@[b],
    {
        let d = self.get_desktop(i);
        sorted_windows(&d)
    }

    pub fn contains(&self, i: usize, w: Window) -> (r: bool)
        ensures
            r == self.desktop(i as int).contains(w),
    {
        if i < self.desktops.len() {
            self.desktops[i].contains(&w)
        } else {
            false
        }
    }

    pub fn is_floating(&self, w: Window) -> (r: bool)
        ensures
            r == self.floating().contains(w),
    {
        self.floating.contains(&w)
    }

    /// Adds `w` to desktop `d`, growing the desktop list as needed; `w` leaves any other desktop.
    pub fn insert(&mut self, d: usize, w: Window)
        requires
            old(self).wf(),
            d < usize::MAX,
        ensures
            final(self).wf(),
            final(self).desktop(d as int) == old(self).desktop(d as int).insert(w),
            forall|i: int| i != d ==> #[trigger] final(self).desktop(i) == old(self).desktop(i).remove(w),
            final(self).floating() == old(self).floating(),
    {
        let ghost before = *self;
        while self.desktops.len() <= d
            invariant
                d < usize::MAX,
                forall|i: int| #[trigger] self.desktop(i) == before.desktop(i),
                self.floating() == before.floating(),
            decreases d + 1 - self.desktops.len(),
        {
            let ghost prev = self.desktops@;
            let ghost prev_self = *self;
            let fresh: BTreeSet<Window> = BTreeSet::new();
            let ghost fresh_view = fresh@;
            self.desktops.push(fresh);
            assert(self.desktops@.len() == prev.len() + 1);
            assert(self.desktops@[prev.len() as int]@ == fresh_view);
            assert forall|i: int| #[trigger] self.desktop(i) == before.desktop(i) by {
                assert(prev_self.desktop(i) == before.desktop(i));
                if 0 <= i < prev.len() {
                    assert(self.desktops@[i] == prev[i]);
                } else if i == prev.len() {
                    assert(prev_self.desktop(i) == Set::<Window>::empty());
                }
            }
        }
        let mut i: usize = 0;
        while i < self.desktops.len()
            invariant
                d < self.desktops@.len(),
                i <= self.desktops@.len(),
                forall|k: int| 0 <= k < i && k != d ==> #[trigger] self.desktop(k) == before.desktop(k).remove(w),
                forall|k: int| (i <= k || k == d) ==> #[trigger] self.desktop(k) == before.desktop(k),
                self.floating() == before.floating(),
            decreases self.desktops.len() - i,
        {
            let ghost prev = *self;
            if i != d {
                self.desktops[i].remove(&w);
                assert(self.desktops@[i as int]@ == prev.desktops@[i as int]@.remove(w));
                assert(self.desktop(i as int) == prev.desktop(i as int).remove(w));
                assert forall|k: int| k != i implies #[trigger] self.desktop(k) == prev.desktop(k) by {
                    if 0 <= k < self.desktops@.len() {
                        assert(self.desktops@[k] == prev.desktops@[k]);
                    }
                }
            }
            i = i + 1;
        }
        assert(self.desktop(d as int) == before.desktop(d as int));
        let ghost pre = *self;
        self.desktops[d].insert(w);
        proof {
            assert(self.desktops@[d as int]@ == pre.desktops@[d as int]@.insert(w));
            assert forall|k: int| k != d implies #[trigger] self.desktop(k) == pre.desktop(k) by {
                if 0 <= k < self.desktops@.len() {
                    assert(self.desktops@[k] == pre.desktops@[k]);
                }
            }
            assert(self.desktop(d as int) == before.desktop(d as int).insert(w));
            assert forall|k: int| k != d implies #[trigger] self.desktop(k) == before.desktop(k).remove(w) by {
                assert(self.desktop(k) == pre.desktop(k));
                if !(0 <= k < self.desktops@.len()) {
                    assert(before.desktop(k) =~= before.desktop(k).remove(w));
                }
            }
            assert forall|a: int, b: int, x: Window|
                a != b && #[trigger] self.desktop(a).contains(x) implies !#[trigger] self.desktop(b).contains(x) by {
                if a == d {
                    assert(self.desktop(a) == before.desktop(a).insert(w));
                } else {
                    assert(self.desktop(a) == before.desktop(a).remove(w));
                }
                if b == d {
                    assert(self.desktop(b) == before.desktop(b).insert(w));
                } else {
                    assert(self.desktop(b) == before.desktop(b).remove(w));
                }
                if x != w {
                    assert(before.desktop(a).contains(x));
                    assert(!before.desktop(b).contains(x));
                }
            }
        }
    }

    /// Takes `w` off desktop `d` and out of the floating set.
    pub fn remove(&mut self, d: usize, w: Window)
        requires
            old(self).wf(),
        ensures
            final(self).wf(),
            final(self).desktop(d as int) == old(self).desktop(d as int).remove(w),
            forall|i: int| i != d ==> #[trigger] final(self).desktop(i) == old(self).desktop(i),
            final(self).floating() == old(self).floating().remove(w),
    {
        let ghost before = *self;
        if d < self.desktops.len() {
            self.desktops[d].remove(&w);
        }
        self.floating.remove(&w);
        proof {
            assert forall|k: int| k != d implies #[trigger] self.desktop(k) == before.desktop(k) by {
                if 0 <= k < self.desktops@.len() {
                    assert(self.desktops@[k] == before.desktops@[k]);
                }
            }
            assert forall|a: int, b: int, x: Window|
                a != b && #[trigger] self.desktop(a).contains(x) implies !#[trigger] self.desktop(b).contains(x) by {
                assert(before.desktop(a).contains(x));
                assert(!before.desktop(b).contains(x));
            }
            if !(d < self.desktops@.len()) {
                assert(self.desktop(d as int) =~= before.desktop(d as int).remove(w));
            }
        }
    }

    /// Exempts `w` from tiling.
    pub fn mark_floating(&mut self, w: Window)
        requires
            old(self).wf(),
        ensures
            final(self).wf(),
            forall|i: int| #[trigger] final(self).desktop(i) == old(self).desktop(i),
            final(self).floating() == old(self).floating().insert(w),
    {
        let ghost before = *self;
        self.floating.insert(w);
        assert(self.desktops@ == before.desktops@);
        assert(forall|i: int| #[trigger] self.desktop(i) == before.desktop(i));
    }

    /// Returns every window to the tiler.
    pub fn clear_floating(&mut self)
        requires
            old(self).wf(),
        ensures
            final(self).wf(),
            forall|i: int| #[trigger] final(self).desktop(i) == old(self).desktop(i),
            final(self).floating() == Set::<Window>::empty(),
    {
        let ghost before = *self;
        self.floating.clear();
        assert(self.desktops@ == before.desktops@);
        assert(forall|i: int| #[trigger] self.desktop(i) == before.desktop(i));
    }
}

/// Adding a window that a desktop lacks and then taking it off again leaves the
/// desktop as it was; an empty desktop is empty again.
pub proof fn lemma_insert_remove_round_trip(desktop: Set<Window>, w: Window)
    requires
        !desktop.contains(w),
    ensures
        desktop.insert(w).remove(w) == desktop,
        desktop == Set::<Window>::empty() ==> desktop.insert(w).remove(w) == Set::<Window>::empty(),
{
    assert(desktop.insert(w).remove(w) =~= desktop);
}

} // verus!
