//! The server's port allocator: which ports of the configured inclusive
//! range are currently leased, and to hand out a free one or validate a
//! requested one. At most one lease exists per port at any time; callers
//! bind the port's listener while they hold the allocator exclusively, so
//! leasing and binding form one atomic step.

use vstd::prelude::*;
use vstd::assert_by_contradiction;
use vstd::set_lib::lemma_int_range;
use vstd::set_lib::lemma_len_subset;
use vstd::set_lib::set_int_range;

use crate::msg::TunnelError;

verus! {

/// Tracks the leases of one server over its configured port range.
pub struct PortAllocator {
    pub min_port: u16,
    pub max_port: u16,
    pub leased: Vec<u16>,
}

impl PortAllocator {
    /// Well-formed: a non-empty range, every lease inside it, no port leased
    /// twice.
    pub open spec fn wf(self) -> bool {
        &&& self.min_port <= self.max_port
        &&& forall|i: int|
            0 <= i < self.leased@.len() ==> self.min_port <= #[trigger] self.leased@[i]
                <= self.max_port
        &&& self.leased@.no_duplicates()
    }

    /// Whether `p` is currently leased.
    pub open spec fn has_leased(self, p: u16) -> bool {
        self.leased@.contains(p)
    }

    /// Whether `p` lies in the configured range.
    pub open spec fn in_range(self, p: u16) -> bool {
        self.min_port <= p <= self.max_port
    }

    /// How many ports are leased.
    pub open spec fn leased_count(self) -> int {
        self.leased@.len() as int
    }

    /// How many ports the range holds.
    pub open spec fn range_size(self) -> int {
        self.max_port - self.min_port + 1
    }

    /// Both ends of the configured range are kept by every operation.
    pub open spec fn same_range(self, other: PortAllocator) -> bool {
        self.min_port == other.min_port && self.max_port == other.max_port
    }

    /// A fresh allocator over the inclusive range, with nothing leased.
    pub fn new(min_port: u16, max_port: u16) -> (r: PortAllocator)
        requires
            min_port <= max_port,
        ensures
            r.wf(),
            r.min_port == min_port,
            r.max_port == max_port,
            forall|p: u16| !r.has_leased(p),
            r.leased_count() == 0,
    {
        let r = PortAllocator { min_port, max_port, leased: Vec::new() };
        assert(forall|p: u16| !r.has_leased(p));
        r
    }

    /// Whether `p` is currently leased.
    pub fn is_leased(&self, p: u16) -> (r: bool)
        ensures
            r == self.has_leased(p),
    {
        let n = self.leased.len();
        let mut k: usize = 0;
        while k < n
            invariant
                n == self.leased@.len(),
                k <= n,
                forall|j: int| 0 <= j < k ==> self.leased@[j] != p,
            decreases n - k,
        {
            if self.leased[k] == p {
                return true;
            }
            k = k + 1;
        }
        false
    }

    /// The first free port of the range, if any is free.
    fn find_free(&self) -> (r: Option<u16>)
        requires
            self.wf(),
        ensures
            match r {
                Some(p) => self.in_range(p) && !self.has_leased(p) && (forall|q: u16|
                    self.in_range(q) && !self.has_leased(q) ==> p <= q),
                None => forall|p: u16| self.in_range(p) ==> self.has_leased(p),
            },
    {
        let mut p: u32 = self.min_port as u32;
        while p <= self.max_port as u32
            invariant
                self.wf(),
                self.min_port as u32 <= p <= self.max_port as u32 + 1,
                forall|q: u16| self.min_port <= q && (q as u32) < p ==> self.has_leased(q),
            decreases self.max_port as u32 + 1 - p,
        {
            if !self.is_leased(p as u16) {
                return Some(p as u16);
            }
            p = p + 1;
        }
        None
    }

    /// What a successful lease did: the returned port was free and in range,
    /// is the requested one — or the lowest free port when any was asked
    /// for — and is now leased on top of exactly the old leases.
    pub open spec fn lease_ok_post(pre: PortAllocator, post: PortAllocator, requested: u16, p: u16) -> bool {
        &&& pre.in_range(p)
        &&& !pre.has_leased(p)
        &&& requested != 0 ==> p == requested
        &&& requested == 0 ==> (forall|q: u16| pre.in_range(q) && !pre.has_leased(q) ==> p <= q)
        &&& forall|q: u16| post.has_leased(q) <==> (pre.has_leased(q) || q == p)
        &&& post.leased_count() == pre.leased_count() + 1
        &&& pre.same_range(post)
    }

    /// Exactly when each lease error is returned.
    pub open spec fn lease_err(pre: PortAllocator, requested: u16, e: TunnelError) -> bool {
        match e {
            TunnelError::PortOutOfRange => requested != 0 && !pre.in_range(requested),
            TunnelError::PortInUse => requested != 0 && pre.in_range(requested) && pre.has_leased(
                requested,
            ),
            TunnelError::NoPortsAvailable => requested == 0 && (forall|p: u16|
                pre.in_range(p) ==> pre.has_leased(p)),
            _ => false,
        }
    }

    /// Lease a port. A request of 0 takes any free port of the range and
    /// fails with `NoPortsAvailable` only when every port is leased; a
    /// nonzero request takes exactly that port, failing with
    /// `PortOutOfRange` outside the range and `PortInUse` when already
    /// leased. On failure nothing changes.
    pub fn lease(&mut self, requested: u16) -> (r: Result<u16, TunnelError>)
        requires
            old(self).wf(),
        ensures
            final(self).wf(),
            match r {
                Ok(p) => PortAllocator::lease_ok_post(*old(self), *final(self), requested, p),
                Err(e) => *final(self) == *old(self) && PortAllocator::lease_err(
                    *old(self),
                    requested,
                    e,
                ),
            },
    {
        if requested != 0 {
            if requested < self.min_port || requested > self.max_port {
                return Err(TunnelError::PortOutOfRange);
            }
            if self.is_leased(requested) {
                return Err(TunnelError::PortInUse);
            }
            self.leased.push(requested);
            proof {
                lemma_lease_push(old(self).leased@, requested);
            }
            Ok(requested)
        } else {
            match self.find_free() {
                Some(p) => {
                    self.leased.push(p);
                    proof {
                        lemma_lease_push(old(self).leased@, p);
                    }
                    Ok(p)
                },
                None => Err(TunnelError::NoPortsAvailable),
            }
        }
    }

    /// Release a port. Idempotent: releasing a port that is not leased
    /// changes nothing; afterwards the port is free to be leased again and
    /// every other lease is untouched.
    pub fn release(&mut self, port: u16)
        requires
            old(self).wf(),
        ensures
            final(self).wf(),
            old(self).same_range(*final(self)),
            forall|q: u16| final(self).has_leased(q) <==> (old(self).has_leased(q) && q != port),
            final(self).leased_count() == old(self).leased_count() - (if old(self).has_leased(port) {
                1int
            } else {
                0int
            }),
    {
        let n = self.leased.len();
        let mut k: usize = 0;
        while k < n
            invariant
                old(self).wf(),
                *self == *old(self),
                n == self.leased@.len(),
                k <= n,
                forall|j: int| 0 <= j < k ==> self.leased@[j] != port,
            decreases n - k,
        {
            if self.leased[k] == port {
                let ghost s0 = self.leased@;
                self.leased.remove(k);
                proof {
                    let t = s0.subrange(0, k as int) + s0.subrange(k as int + 1, s0.len() as int);
                    assert(self.leased@ == t);
                    assert forall|q: u16|
                        self.has_leased(q) <==> (old(self).has_leased(q) && q != port) by {
                        lemma_splice_contains(s0, k as int, q);
                        if q != port && s0.contains(q) {
                            let i = choose|i: int| 0 <= i < s0.len() && s0[i] == q;
                            if i < k {
                                assert(self.leased@[i] == q);
                            } else {
                                assert(self.leased@[i - 1] == q);
                            }
                        }
                    }
                    lemma_splice_no_duplicates(s0, k as int);
                    assert forall|i: int|
                        0 <= i < self.leased@.len() implies old(self).min_port <= #[trigger] self
                        .leased@[i] <= old(self).max_port by {
                        if i < k {
                            assert(self.leased@[i] == s0[i]);
                        } else {
                            assert(self.leased@[i] == s0[i + 1]);
                        }
                    }
                    assert(old(self).has_leased(port));
                }
                return ;
            }
            k = k + 1;
        }
        assert(!self.has_leased(port));
    }
}

/// What appending one fresh port does to membership and to uniqueness.
proof fn lemma_lease_push(s: Seq<u16>, v: u16)
    requires
        !s.contains(v),
        s.no_duplicates(),
    ensures
        forall|q: u16| #[trigger] s.push(v).contains(q) <==> (s.contains(q) || q == v),
        s.push(v).no_duplicates(),
{
    assert forall|q: u16| #[trigger] s.push(v).contains(q) <==> (s.contains(q) || q == v) by {
        if s.push(v).contains(q) {
            let i = choose|i: int| 0 <= i < s.push(v).len() && s.push(v)[i] == q;
            if i < s.len() {
                assert(s[i] == q);
            }
        }
        if s.contains(q) {
            let i = choose|i: int| 0 <= i < s.len() && s[i] == q;
            assert(s.push(v)[i] == q);
        }
        assert(s.push(v)[s.len() as int] == v);
    }
    assert forall|i: int, j: int|
        0 <= i < s.push(v).len() && 0 <= j < s.push(v).len() && i != j implies s.push(v)[i]
        != s.push(v)[j] by {
        if i < s.len() && j < s.len() {
        } else if i < s.len() {
            assert(s.push(v)[i] == s[i]);
            assert(s.contains(s[i]));
        } else if j < s.len() {
            assert(s.push(v)[j] == s[j]);
            assert(s.contains(s[j]));
        }
    }
}

/// An element of a sequence with one index removed stood at some index of
/// the original, other than the removed one when the element differs from
/// what stood there.
proof fn lemma_splice_contains(s: Seq<u16>, k: int, q: u16)
    requires
        0 <= k < s.len(),
    ensures
        (s.subrange(0, k) + s.subrange(k + 1, s.len() as int)).contains(q) ==> s.contains(q),
        (s.subrange(0, k) + s.subrange(k + 1, s.len() as int)).contains(q) && s.no_duplicates()
            && q == s[k] ==> false,
{
    let t = s.subrange(0, k) + s.subrange(k + 1, s.len() as int);
    if t.contains(q) {
        let i = choose|i: int| 0 <= i < t.len() && t[i] == q;
        if i < k {
            assert(s[i] == q);
        } else {
            assert(s[i + 1] == q);
        }
    }
}

/// Removing one index keeps a duplicate-free sequence duplicate-free.
proof fn lemma_splice_no_duplicates(s: Seq<u16>, k: int)
    requires
        0 <= k < s.len(),
        s.no_duplicates(),
    ensures
        (s.subrange(0, k) + s.subrange(k + 1, s.len() as int)).no_duplicates(),
{
    let t = s.subrange(0, k) + s.subrange(k + 1, s.len() as int);
    assert forall|i: int, j: int| 0 <= i < t.len() && 0 <= j < t.len() && i != j implies t[i]
        != t[j] by {
        let si = if i < k { i } else { i + 1 };
        let sj = if j < k { j } else { j + 1 };
        assert(t[i] == s[si]);
        assert(t[j] == s[sj]);
    }
}

/// Pigeonhole availability: while fewer ports are leased than the range
/// holds, some port of the range is free, so an anonymous lease request
/// succeeds. Leasing any-port N times over a range of at least N ports
/// therefore yields N ports, distinct because each comes back unleased and
/// immediately joins the leased set.
pub proof fn lemma_free_port_exists(a: PortAllocator)
    requires
        a.wf(),
        a.leased_count() < a.range_size(),
    ensures
        exists|p: u16| a.in_range(p) && !a.has_leased(p),
{
    let ints = a.leased@.map_values(|p: u16| p as int);
    let range = set_int_range(a.min_port as int, a.max_port as int + 1);
    lemma_int_range(a.min_port as int, a.max_port as int + 1);
    assert(ints.no_duplicates()) by {
        assert(forall|i: int| 0 <= i < ints.len() ==> ints[i] == a.leased@[i] as int);
    }
    ints.unique_seq_to_set();
    assert_by_contradiction!(exists|p: u16| a.in_range(p) && !a.has_leased(p), {
        assert forall|q: int| range.contains(q) implies ints.to_set().contains(q) by {
            let qp = q as u16;
            assert(a.in_range(qp));
            assert(a.has_leased(qp));
            let i = choose|i: int| 0 <= i < a.leased@.len() && a.leased@[i] == qp;
            assert(ints[i] == q);
            assert(ints.contains(q));
        }
        lemma_len_subset(range, ints.to_set());
        assert(range.len() <= ints.to_set().len());
        assert(ints.to_set().len() == a.leased_count());
    });
}

/// A port handed out by an any-port lease stays leased through every later
/// lease of the run.
proof fn lemma_lease_run_keeps(allocs: Seq<PortAllocator>, ports: Seq<u16>, i: int, k: int)
    requires
        allocs.len() == ports.len() + 1,
        forall|j: int|
            0 <= j < ports.len() ==> PortAllocator::lease_ok_post(
                allocs[j],
                allocs[j + 1],
                0,
                #[trigger] ports[j],
            ),
        0 <= i < ports.len(),
        i < k <= ports.len(),
    ensures
        allocs[k].has_leased(ports[i]),
        allocs[i].same_range(allocs[k]),
    decreases k - i,
{
    assert(PortAllocator::lease_ok_post(allocs[i], allocs[i + 1], 0, ports[i]));
    if k == i + 1 {
    } else {
        lemma_lease_run_keeps(allocs, ports, i, k - 1);
        assert(PortAllocator::lease_ok_post(allocs[k - 1], allocs[k], 0, ports[k - 1]));
    }
}

/// Any run of successful any-port leases hands out pairwise distinct ports,
/// all inside the range the run started with: each draw comes back unleased
/// and at once joins the leased set that every later draw must avoid.
pub proof fn lemma_lease_run_distinct(allocs: Seq<PortAllocator>, ports: Seq<u16>)
    requires
        allocs.len() == ports.len() + 1,
        forall|j: int|
            0 <= j < ports.len() ==> PortAllocator::lease_ok_post(
                allocs[j],
                allocs[j + 1],
                0,
                #[trigger] ports[j],
            ),
    ensures
        ports.no_duplicates(),
        forall|j: int| 0 <= j < ports.len() ==> allocs[0].in_range(#[trigger] ports[j]),
{
    assert forall|a: int, b: int|
        0 <= a < ports.len() && 0 <= b < ports.len() && a != b implies ports[a] != ports[b] by {
        let i = if a < b { a } else { b };
        let j = if a < b { b } else { a };
        lemma_lease_run_keeps(allocs, ports, i, j);
        assert(PortAllocator::lease_ok_post(allocs[j], allocs[j + 1], 0, ports[j]));
    }
    assert forall|j: int| 0 <= j < ports.len() implies allocs[0].in_range(#[trigger] ports[j]) by {
        assert(PortAllocator::lease_ok_post(allocs[j], allocs[j + 1], 0, ports[j]));
        if j > 0 {
            lemma_lease_run_keeps(allocs, ports, 0, j);
            assert(PortAllocator::lease_ok_post(allocs[0], allocs[1], 0, ports[0]));
        }
    }
}

} // verus!
