//! The update ledger: every in-flight hardware refresh operation, keyed by
//! the token the display driver returned, mapped to the region it covers.
//!
//! A token enters the ledger when a refresh is submitted and leaves it only
//! when it is explicitly retired (after a wait-for-completion call), never
//! silently.  Callers that need a settled surface drain the ledger first.

use vstd::prelude::*;
use crate::geom::Rectangle;

verus! {

/// The pair `(t, r)` stands somewhere in `s`.
pub open spec fn has_entry(s: Seq<(u32, Rectangle)>, t: u32, r: Rectangle) -> bool {
    exists|i: int| 0 <= i < s.len() && #[trigger] s[i] == (t, r)
}

pub struct UpdateLedger {
    entries: Vec<(u32, Rectangle)>,
}

impl UpdateLedger {
    /// The outstanding entries, in submission order.
    pub closed spec fn view(&self) -> Seq<(u32, Rectangle)> {
        self.entries@
    }

    /// Tokens are unique: the ledger is a map from token to region.
    pub closed spec fn well_formed(&self) -> bool {
        forall|i: int, j: int|
            0 <= i < j < self.entries@.len() ==> self.entries@[i].0 != self.entries@[j].0
    }

    /// No outstanding operation touches `rect`.
    pub open spec fn none_overlapping(&self, rect: Rectangle) -> bool {
        forall|i: int| 0 <= i < self@.len() ==> !(#[trigger] self@[i]).1.spec_overlaps(rect)
    }

    pub fn new() -> (r: UpdateLedger)
        ensures
            r@.len() == 0,
            r.well_formed(),
    {
        UpdateLedger { entries: Vec::new() }
    }

    pub fn len(&self) -> (n: usize)
        ensures
            n == self@.len(),
    {
        self.entries.len()
    }

    pub fn is_empty(&self) -> (r: bool)
        ensures
            r == (self@.len() == 0),
    {
        self.entries.len() == 0
    }

    /// Record a freshly issued token for `rect`.  If the driver ever hands
    /// out a token that is still outstanding, the old entry is superseded,
    /// as a map insertion would.
    pub fn insert(&mut self, token: u32, rect: Rectangle)
        requires
            old(self).well_formed(),
        ensures
            final(self).well_formed(),
            has_entry(final(self)@, token, rect),
            forall|t: u32, r: Rectangle|
                t != token ==> (has_entry(final(self)@, t, r) == has_entry(old(self)@, t, r)),
            forall|r: Rectangle| has_entry(final(self)@, token, r) ==> r == rect,
    {
        let n = self.entries.len();
        let mut i: usize = 0;
        while i < n
            invariant
                n == self.entries@.len(),
                i <= n,
                self.entries@ == old(self)@,
                forall|k: int| 0 <= k < i ==> self.entries@[k].0 != token,
                self.well_formed(),
            decreases n - i,
        {
            if self.entries[i].0 == token {
                self.entries.set(i, (token, rect));
                let ghost olds = old(self)@;
                let ghost news = self@;
                let ghost fi = i as int;
                proof {
                    assert(news == olds.update(fi, (token, rect)));
                    assert(has_entry(news, token, rect)) by {
                        assert(news[fi] == (token, rect));
                    }
                    assert forall|t: u32, r: Rectangle| t != token implies
                        (has_entry(news, t, r) == has_entry(olds, t, r)) by {
                        if has_entry(news, t, r) {
                            let j = choose|j: int| 0 <= j < news.len() && #[trigger] news[j] == (t, r);
                            assert(j != fi);
                            assert(olds[j] == (t, r));
                        }
                        if has_entry(olds, t, r) {
                            let j = choose|j: int| 0 <= j < olds.len() && #[trigger] olds[j] == (t, r);
                            assert(olds[fi].0 == token);
                            assert(j != fi);
                            assert(news[j] == (t, r));
                        }
                    }
                    assert forall|r: Rectangle| has_entry(news, token, r) implies r == rect by {
                        let j = choose|j: int|
                            0 <= j < news.len() && #[trigger] news[j] == (token, r);
                        if j != fi {
                            assert(olds[j] == (token, r));
                            assert(olds[j].0 != olds[fi].0);
                        }
                    }
                }
                return;
            }
            i += 1;
        }
        self.entries.push((token, rect));
        let ghost olds = old(self)@;
        let ghost news = self@;
        proof {
            assert(news == olds.push((token, rect)));
            assert(news[olds.len() as int] == (token, rect));
            assert forall|t: u32, r: Rectangle| t != token implies
                (has_entry(news, t, r) == has_entry(olds, t, r)) by {
                if has_entry(news, t, r) {
                    let j = choose|j: int| 0 <= j < news.len() && #[trigger] news[j] == (t, r);
                    assert(j != olds.len());
                    assert(olds[j] == (t, r));
                }
                if has_entry(olds, t, r) {
                    let j = choose|j: int| 0 <= j < olds.len() && #[trigger] olds[j] == (t, r);
                    assert(news[j] == (t, r));
                }
            }
            assert forall|r: Rectangle| has_entry(news, token, r) implies r == rect by {
                let j = choose|j: int| 0 <= j < news.len() && #[trigger] news[j] == (token, r);
                if j < olds.len() {
                    assert(olds[j].0 == token);
                }
            }
        }
    }

    /// Empty the ledger, handing back every outstanding entry so the caller
    /// can wait for each operation's completion.  Used at the drain points:
    /// before suspending and before a final full-panel refresh.
    pub fn drain_all(&mut self) -> (drained: Vec<(u32, Rectangle)>)
        ensures
            final(self)@.len() == 0,
            final(self).well_formed(),
            drained@ == old(self)@,
    {
        let mut drained: Vec<(u32, Rectangle)> = Vec::new();
        let n = self.entries.len();
        let mut i: usize = 0;
        while i < n
            invariant
                n == self.entries@.len(),
                i <= n,
                self.entries@ == old(self)@,
                drained@ == old(self)@.take(i as int),
            decreases n - i,
        {
            let e = self.entries[i];
            drained.push(e);
            proof {
                assert(old(self)@.take(i + 1 as int)
                    == old(self)@.take(i as int).push(old(self)@[i as int]));
            }
            i += 1;
        }
        proof {
            assert(old(self)@.take(n as int) == old(self)@);
        }
        self.entries = Vec::new();
        drained
    }

    /// Remove and return every entry whose region overlaps `rect`; the
    /// entries that do not overlap stay, in order.  This is the wait set a
    /// caller must retire before repainting inside `rect`.
    pub fn remove_overlapping(&mut self, rect: Rectangle) -> (removed: Vec<(u32, Rectangle)>)
        requires
            old(self).well_formed(),
        ensures
            final(self).well_formed(),
            final(self).none_overlapping(rect),
            removed@ == old(self)@.filter(
                |e: (u32, Rectangle)| e.1.spec_overlaps(rect)),
            final(self)@ == old(self)@.filter(
                |e: (u32, Rectangle)| !e.1.spec_overlaps(rect)),
            forall|i: int| 0 <= i < removed@.len()
                ==> (#[trigger] removed@[i]).1.spec_overlaps(rect)
                    && has_entry(old(self)@, removed@[i].0, removed@[i].1),
            forall|i: int| 0 <= i < final(self)@.len()
                ==> has_entry(old(self)@, (#[trigger] final(self)@[i]).0, final(self)@[i].1),
            forall|t: u32, r: Rectangle| has_entry(old(self)@, t, r) ==>
                if r.spec_overlaps(rect) {
                    has_entry(removed@, t, r)
                } else {
                    has_entry(final(self)@, t, r)
                },
    {
        let mut kept: Vec<(u32, Rectangle)> = Vec::new();
        let mut removed: Vec<(u32, Rectangle)> = Vec::new();
        let n = self.entries.len();
        let mut i: usize = 0;
        while i < n
            invariant
                n == self.entries@.len(),
                i <= n,
                self.entries@ == old(self)@,
                old(self).well_formed(),
                forall|k: int| 0 <= k < removed@.len()
                    ==> (#[trigger] removed@[k]).1.spec_overlaps(rect)
                        && has_entry(old(self)@, removed@[k].0, removed@[k].1),
                forall|k: int| 0 <= k < kept@.len()
                    ==> !(#[trigger] kept@[k]).1.spec_overlaps(rect)
                        && has_entry(old(self)@, kept@[k].0, kept@[k].1),
                removed@ == old(self)@.take(i as int).filter(
                    |e: (u32, Rectangle)| e.1.spec_overlaps(rect)),
                kept@ == old(self)@.take(i as int).filter(
                    |e: (u32, Rectangle)| !e.1.spec_overlaps(rect)),
                forall|t: u32, r: Rectangle| has_entry(old(self)@.take(i as int), t, r) ==>
                    if r.spec_overlaps(rect) {
                        has_entry(removed@, t, r)
                    } else {
                        has_entry(kept@, t, r)
                    },
                forall|a: int, b: int| 0 <= a < b < kept@.len()
                    ==> (#[trigger] kept@[a]).0 != (#[trigger] kept@[b]).0,
                forall|a: int| 0 <= a < kept@.len()
                    ==> exists|j: int| 0 <= j < i && old(self)@[j] == #[trigger] kept@[a],
            decreases n - i,
        {
            let e = self.entries[i];
            let ghost kept_before = kept@;
            let ghost removed_before = removed@;
            if e.1.overlaps(&rect) {
                removed.push(e);
                proof {
                    assert(self.entries@[i as int] == e);
                    assert(has_entry(old(self)@, e.0, e.1)) by {
                        assert(old(self)@[i as int] == e);
                    }
                }
            } else {
                kept.push(e);
                proof {
                    assert(has_entry(old(self)@, e.0, e.1)) by {
                        assert(old(self)@[i as int] == e);
                    }
                    assert forall|a: int, b: int| 0 <= a < b < kept@.len() implies
                        (#[trigger] kept@[a]).0 != (#[trigger] kept@[b]).0 by {
                        if b == kept@.len() - 1 {
                            let j = choose|j: int|
                                0 <= j < i && old(self)@[j] == #[trigger] kept_before[a];
                            assert(old(self)@[j].0 != old(self)@[i as int].0);
                        }
                    }
                    assert forall|a: int| 0 <= a < kept@.len() implies
                        exists|j: int| 0 <= j < i + 1 && old(self)@[j] == #[trigger] kept@[a] by {
                        if a < kept_before.len() {
                            let j = choose|j: int|
                                0 <= j < i && old(self)@[j] == #[trigger] kept_before[a];
                            assert(0 <= j < i + 1 && old(self)@[j] == kept@[a]);
                        } else {
                            assert(old(self)@[i as int] == kept@[a]);
                        }
                    }
                }
            }
            proof {
                assert(old(self)@.take(i + 1 as int)
                    == old(self)@.take(i as int).push(old(self)@[i as int]));
                reveal(Seq::filter);
                assert(old(self)@.take(i + 1 as int).drop_last()
                    == old(self)@.take(i as int));
                assert(old(self)@.take(i + 1 as int).last() == old(self)@[i as int]);
                assert forall|t: u32, r: Rectangle|
                    has_entry(old(self)@.take(i + 1 as int), t, r) implies
                    if r.spec_overlaps(rect) {
                        has_entry(removed@, t, r)
                    } else {
                        has_entry(kept@, t, r)
                    } by {
                    let s = old(self)@.take(i + 1 as int);
                    let j = choose|j: int| 0 <= j < s.len() && #[trigger] s[j] == (t, r);
                    if j < i {
                        assert(old(self)@.take(i as int)[j] == (t, r));
                        assert(has_entry(old(self)@.take(i as int), t, r));
                        if r.spec_overlaps(rect) {
                            let k = choose|k: int|
                                0 <= k < removed_before.len()
                                    && #[trigger] removed_before[k] == (t, r);
                            assert(removed@[k] == (t, r));
                        } else {
                            let k = choose|k: int|
                                0 <= k < kept_before.len() && #[trigger] kept_before[k] == (t, r);
                            assert(kept@[k] == (t, r));
                        }
                    } else {
                        assert((t, r) == e);
                        if r.spec_overlaps(rect) {
                            assert(removed@[removed@.len() - 1] == (t, r));
                        } else {
                            assert(kept@[kept@.len() - 1] == (t, r));
                        }
                    }
                }
            }
            i += 1;
        }
        proof {
            assert(old(self)@.take(n as int) == old(self)@);
        }
        self.entries = kept;
        removed
    }
}

} // verus!
