//! The server's pairing table: one entry per announced public connection,
//! from the moment the connection is accepted until the client pairs it with
//! a data connection or a timeout abandons it. Sockets themselves stay with
//! the caller, named here by opaque handles.

use vstd::prelude::*;

verus! {

/// One announced public connection awaiting its data connection.
#[derive(Clone, Copy, Debug, PartialEq, Eq, Structural)]
pub struct PendingPairing {
    /// The fresh random id announced over the control channel.
    pub id: u128,
    /// The caller's handle for the accepted public socket.
    pub handle: u64,
    /// When the entry was made, in the caller's clock's milliseconds.
    pub created_at: u64,
}

/// All pending pairings of one control session.
pub struct PairingTable {
    pub entries: Vec<PendingPairing>,
}

/// Whether an entry has outlived the timeout window at time `now`.
pub open spec fn expired(e: PendingPairing, now: u64, timeout: u64) -> bool {
    e.created_at + timeout <= now
}

impl PairingTable {
    /// Well-formed: at most one entry per connection id.
    pub open spec fn wf(self) -> bool {
        forall|i: int, j: int|
            0 <= i < j < self.entries@.len() ==> self.entries@[i].id != self.entries@[j].id
    }

    /// Whether some entry carries this id.
    pub open spec fn has_id(self, id: u128) -> bool {
        exists|i: int| 0 <= i < self.entries@.len() && self.entries@[i].id == id
    }

    /// How many pairings are pending.
    pub open spec fn count(self) -> int {
        self.entries@.len() as int
    }

    /// An empty table.
    pub fn new() -> (r: PairingTable)
        ensures
            r.wf(),
            r.count() == 0,
            forall|id: u128| !r.has_id(id),
    {
        PairingTable { entries: Vec::new() }
    }

    /// Record a new pending pairing. Refused without change when the id is
    /// already pending, so no id ever has two entries.
    pub fn insert(&mut self, id: u128, handle: u64, created_at: u64) -> (r: bool)
        requires
            old(self).wf(),
        ensures
            final(self).wf(),
            r == !old(self).has_id(id),
            !r ==> *final(self) == *old(self),
            r ==> final(self).entries@ == old(self).entries@.push(
                (PendingPairing { id, handle, created_at }),
            ),
            r ==> final(self).count() == old(self).count() + 1,
            forall|q: u128| final(self).has_id(q) <==> (old(self).has_id(q) || (r && q == id)),
    {
        let mut k: usize = 0;
        let n = self.entries.len();
        while k < n
            invariant
                old(self).wf(),
                *self == *old(self),
                n == self.entries@.len(),
                k <= n,
                forall|j: int| 0 <= j < k ==> self.entries@[j].id != id,
            decreases n - k,
        {
            if self.entries[k].id == id {
                proof {
                    assert(old(self).entries@[k as int].id == id);
                    assert(old(self).has_id(id));
                }
                return false;
            }
            k = k + 1;
        }
        proof {
            if old(self).has_id(id) {
                let i = choose|i: int|
                    0 <= i < old(self).entries@.len() && old(self).entries@[i].id == id;
                assert(false);
            }
        }
        self.entries.push(PendingPairing { id, handle, created_at });
        proof {
            let s0 = old(self).entries@;
            let s = self.entries@;
            assert forall|q: u128| self.has_id(q) <==> (old(self).has_id(q) || q == id) by {
                if self.has_id(q) {
                    let i = choose|i: int| 0 <= i < s.len() && s[i].id == q;
                    if i < s0.len() {
                        assert(s0[i].id == q);
                    }
                }
                if old(self).has_id(q) {
                    let i = choose|i: int| 0 <= i < s0.len() && s0[i].id == q;
                    assert(s[i].id == q);
                }
                assert(s[s.len() - 1].id == id);
            }
            assert forall|i: int, j: int| 0 <= i < j < s.len() implies s[i].id != s[j].id by {
                if j < s0.len() {
                    assert(s[i] == s0[i] && s[j] == s0[j]);
                } else {
                    assert(s[i] == s0[i]);
                    assert(s[j].id == id);
                }
            }
        }
        true
    }

    /// Claim the pairing for `id`: remove its entry and hand back the public
    /// socket's handle. Exactly one of two claims for the same id can
    /// succeed, however they interleave under the table's lock: the first
    /// removes the entry, so the second finds nothing.
    pub fn claim(&mut self, id: u128) -> (r: Option<u64>)
        requires
            old(self).wf(),
        ensures
            final(self).wf(),
            claim_post(*old(self), *final(self), id, r),
    {
        let n = self.entries.len();
        let mut k: usize = 0;
        while k < n
            invariant
                old(self).wf(),
                *self == *old(self),
                n == self.entries@.len(),
                k <= n,
                forall|j: int| 0 <= j < k ==> self.entries@[j].id != id,
            decreases n - k,
        {
            if self.entries[k].id == id {
                let h = self.entries[k].handle;
                let ghost s0 = self.entries@;
                self.entries.remove(k);
                proof {
                    let t = s0.subrange(0, k as int) + s0.subrange(k as int + 1, s0.len() as int);
                    assert(self.entries@ == t);
                    assert forall|i: int, j: int|
                        0 <= i < j < t.len() implies t[i].id != t[j].id by {
                        let si = if i < k { i } else { i + 1 };
                        let sj = if j < k { j } else { j + 1 };
                        assert(t[i] == s0[si]);
                        assert(t[j] == s0[sj]);
                    }
                    assert forall|q: u128| q != id implies (self.has_id(q) <==> old(self).has_id(
                        q,
                    )) by {
                        if old(self).has_id(q) {
                            let i = choose|i: int| 0 <= i < s0.len() && s0[i].id == q;
                            if i < k {
                                assert(t[i].id == q);
                            } else {
                                assert(t[i - 1].id == q);
                            }
                        }
                        if self.has_id(q) {
                            let i = choose|i: int| 0 <= i < t.len() && t[i].id == q;
                            if i < k {
                                assert(s0[i].id == q);
                            } else {
                                assert(s0[i + 1].id == q);
                            }
                        }
                    }
                    assert forall|i: int| 0 <= i < t.len() implies #[trigger] t[i].id != id by {
                        if i < k {
                            assert(t[i] == s0[i]);
                        } else {
                            assert(t[i] == s0[i + 1]);
                        }
                    }
                }
                return Some(h);
            }
            k = k + 1;
        }
        None
    }

    /// Remove every entry whose timeout window has elapsed at `now`, in
    /// order, and hand back the handles of their public sockets so the
    /// caller can close them. Entries still inside the window stay, in
    /// order.
    pub fn expire(&mut self, now: u64, timeout: u64) -> (r: Vec<u64>)
        requires
            old(self).wf(),
        ensures
            final(self).wf(),
            final(self).entries@ == old(self).entries@.filter(
                |e: PendingPairing| !expired(e, now, timeout),
            ),
            r@ == old(self).entries@.filter(|e: PendingPairing| expired(e, now, timeout)).map_values(
                |e: PendingPairing| e.handle,
            ),
    {
        let ghost s0 = self.entries@;
        let ghost keep = |e: PendingPairing| !expired(e, now, timeout);
        let ghost gone = |e: PendingPairing| expired(e, now, timeout);
        let mut kept: Vec<PendingPairing> = Vec::new();
        let mut handles: Vec<u64> = Vec::new();
        let n = self.entries.len();
        let mut k: usize = 0;
        proof {
            reveal(Seq::filter);
            assert(s0.take(0) =~= Seq::<PendingPairing>::empty());
            assert(kept@ =~= s0.take(0).filter(keep));
            assert(handles@ =~= s0.take(0).filter(gone).map_values(|e: PendingPairing| e.handle));
        }
        while k < n
            invariant
                old(self).wf(),
                *self == *old(self),
                s0 == self.entries@,
                keep == (|e: PendingPairing| !expired(e, now, timeout)),
                gone == (|e: PendingPairing| expired(e, now, timeout)),
                n == s0.len(),
                k <= n,
                kept@ == s0.take(k as int).filter(keep),
                handles@ == s0.take(k as int).filter(gone).map_values(
                    |e: PendingPairing| e.handle,
                ),
            decreases n - k,
        {
            let e = self.entries[k];
            let still_pending: bool = !(now >= e.created_at && now - e.created_at >= timeout);
            proof {
                assert(still_pending == keep(s0[k as int]));
            }
            if still_pending {
                kept.push(e);
            } else {
                handles.push(e.handle);
            }
            proof {
                reveal(Seq::filter);
                let t = s0.take(k as int + 1);
                assert(t.drop_last() =~= s0.take(k as int));
                assert(t.last() == s0[k as int]);
                assert(t.filter(keep) == if keep(s0[k as int]) {
                    s0.take(k as int).filter(keep).push(s0[k as int])
                } else {
                    s0.take(k as int).filter(keep)
                });
                assert(t.filter(gone) == if gone(s0[k as int]) {
                    s0.take(k as int).filter(gone).push(s0[k as int])
                } else {
                    s0.take(k as int).filter(gone)
                });
                assert(handles@ =~= t.filter(gone).map_values(|e: PendingPairing| e.handle));
            }
            k = k + 1;
        }
        proof {
            assert(s0.take(n as int) =~= s0);
        }
        self.entries = kept;
        proof {
            lemma_filter_wf(s0, keep);
        }
        handles
    }
}

/// What a claim did: a successful claim returns the handle of the one entry
/// that carried the id and removes it; a failed claim finds no entry and
/// changes nothing. Either way no other id's entry is touched, and after a
/// claim the id is no longer pending.
pub open spec fn claim_post(
    pre: PairingTable,
    post: PairingTable,
    id: u128,
    r: Option<u64>,
) -> bool {
    &&& match r {
        Some(h) => {
            &&& pre.has_id(id)
            &&& exists|i: int|
                0 <= i < pre.entries@.len() && pre.entries@[i].id == id && pre.entries@[i].handle
                    == h
            &&& post.count() == pre.count() - 1
        },
        None => !pre.has_id(id) && post == pre,
    }
    &&& !post.has_id(id)
    &&& forall|q: u128| q != id ==> (post.has_id(q) <==> pre.has_id(q))
}

/// Pairing atomicity: of two claims for the same id, only the first can
/// succeed. The first removes the one entry, so the second finds nothing
/// and changes nothing — the same public socket can never be paired twice.
pub proof fn lemma_claim_atomic(
    t0: PairingTable,
    t1: PairingTable,
    t2: PairingTable,
    id: u128,
    r1: Option<u64>,
    r2: Option<u64>,
)
    requires
        claim_post(t0, t1, id, r1),
        claim_post(t1, t2, id, r2),
        r1 is Some,
    ensures
        r2 is None,
        t2 == t1,
{
}

/// Every element a `filter` keeps stood somewhere in the original.
proof fn lemma_filter_elem_of(s: Seq<PendingPairing>, pred: spec_fn(PendingPairing) -> bool, i: int)
    requires
        0 <= i < s.filter(pred).len(),
    ensures
        exists|w: int| 0 <= w < s.len() && s[w] == s.filter(pred)[i],
    decreases s.len(),
{
    reveal(Seq::filter);
    let t = s.filter(pred);
    let td = s.drop_last().filter(pred);
    if pred(s.last()) && i == t.len() - 1 {
        assert(s[s.len() - 1] == t[i]);
    } else {
        lemma_filter_elem_of(s.drop_last(), pred, i);
        let w = choose|w: int| 0 <= w < s.drop_last().len() && s.drop_last()[w] == td[i];
        assert(s[w] == t[i]);
    }
}

/// A subsequence selected by `filter` keeps ids unique.
proof fn lemma_filter_wf(s: Seq<PendingPairing>, pred: spec_fn(PendingPairing) -> bool)
    requires
        forall|i: int, j: int| 0 <= i < j < s.len() ==> s[i].id != s[j].id,
    ensures
        forall|i: int, j: int|
            0 <= i < j < s.filter(pred).len() ==> s.filter(pred)[i].id != s.filter(pred)[j].id,
    decreases s.len(),
{
    reveal(Seq::filter);
    if s.len() > 0 {
        lemma_filter_wf(s.drop_last(), pred);
        let t = s.filter(pred);
        let td = s.drop_last().filter(pred);
        assert forall|i: int, j: int| 0 <= i < j < t.len() implies t[i].id != t[j].id by {
            if pred(s.last()) {
                assert(t == td + seq![s.last()]);
                if j < t.len() - 1 {
                    assert(t[i] == td[i] && t[j] == td[j]);
                } else {
                    assert(t[j] == s.last());
                    assert(t[i] == td[i]);
                    lemma_filter_elem_of(s.drop_last(), pred, i);
                    let w = choose|w: int|
                        0 <= w < s.drop_last().len() && s.drop_last()[w] == td[i];
                    assert(s[w] == td[i]);
                    assert(s[s.len() - 1] == s.last());
                }
            } else {
                assert(t == td);
            }
        }
    }
}

} // verus!
