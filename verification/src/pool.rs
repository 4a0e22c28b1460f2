//! Resource pool allocator.
//!
//! Tracks which CIDs and which `(protocol, host port)` pairs are currently
//! claimed by live instances.  CIDs are drawn from the configured contiguous
//! range `[cid_start, cid_start + cid_pool_size)`; allocation hands out the
//! lowest free value and fails with `ResourceExhausted` when the range is
//! fully claimed.  Port collision detection is limited to the mappings
//! recorded by this allocator; it does not consult other subsystems (for
//! example host sockets bound by unrelated processes) — a documented
//! limitation of the design, not an oversight.
//!
//! All mappings share the single configured bind address, so a claim is
//! keyed by the `(protocol, host port)` pair alone.

use vstd::prelude::*;
use vstd::seq_lib::*;

use crate::config::Protocol;
use crate::error::VmmError;

verus! {

/// One claimed forwarded port: the protocol and the host port.
#[derive(Clone, Copy, Debug, PartialEq, Eq, Structural)]
pub struct PortClaim {
    pub protocol: Protocol,
    pub port: u16,
}

/// In-memory record of which CIDs and ports are claimed.
///
/// The pool is process-local: it is rebuilt at startup from the durable
/// per-instance records before any allocation request is served.
#[derive(Clone, Debug)]
pub struct ResourcePool {
    /// First CID of the configured range.
    pub cid_start: u32,
    /// Number of CIDs in the configured range.
    pub cid_pool_size: u32,
    /// CIDs currently claimed, each at most once.
    pub claimed_cids: Vec<u32>,
    /// Ports currently claimed, each at most once.
    pub claimed_ports: Vec<PortClaim>,
}

impl ResourcePool {
    /// Claims are recorded at most once and the range fits in `u32`.
    pub open spec fn wf(self) -> bool {
        &&& self.cid_start + self.cid_pool_size <= u32::MAX
        &&& self.claimed_cids@.no_duplicates()
        &&& self.claimed_ports@.no_duplicates()
    }

    /// Whether `c` lies in the configured CID range.
    pub open spec fn cid_in_range(self, c: u32) -> bool {
        self.cid_start <= c < self.cid_start + self.cid_pool_size
    }

    /// Whether `c` is currently claimed.
    pub open spec fn cid_claimed(self, c: u32) -> bool {
        self.claimed_cids@.contains(c)
    }

    /// Whether the port pair `p` is currently claimed.
    pub open spec fn port_claimed(self, p: PortClaim) -> bool {
        self.claimed_ports@.contains(p)
    }

    /// Whether every CID of the range is claimed.
    pub open spec fn exhausted(self) -> bool {
        forall|c: u32| self.cid_in_range(c) ==> #[trigger] self.cid_claimed(c)
    }

    /// The pool as configured before any claim.
    pub fn new(cid_start: u32, cid_pool_size: u32) -> (r: ResourcePool)
        requires
            cid_start + cid_pool_size <= u32::MAX,
        ensures
            r.wf(),
            r.cid_start == cid_start,
            r.cid_pool_size == cid_pool_size,
            forall|c: u32| !r.cid_claimed(c),
            forall|p: PortClaim| !r.port_claimed(p),
    {
        ResourcePool { cid_start, cid_pool_size, claimed_cids: Vec::new(), claimed_ports: Vec::new() }
    }

    /// Whether `c` is currently claimed.
    pub fn is_cid_claimed(&self, c: u32) -> (r: bool)
        ensures
            r == self.cid_claimed(c),
    {
        let n = self.claimed_cids.len();
        let mut i: usize = 0;
        while i < n
            invariant
                n == self.claimed_cids@.len(),
                0 <= i <= n,
                forall|j: int| 0 <= j < i ==> self.claimed_cids@[j] != c,
            decreases n - i,
        {
            if self.claimed_cids[i] == c {
                assert(self.claimed_cids@.contains(c));
                return true;
            }
            i = i + 1;
        }
        assert(!self.claimed_cids@.contains(c));
        false
    }

    /// Whether the port pair `p` is currently claimed.
    pub fn is_port_claimed(&self, p: PortClaim) -> (r: bool)
        ensures
            r == self.port_claimed(p),
    {
        let n = self.claimed_ports.len();
        let mut i: usize = 0;
        while i < n
            invariant
                n == self.claimed_ports@.len(),
                0 <= i <= n,
                forall|j: int| 0 <= j < i ==> self.claimed_ports@[j] != p,
            decreases n - i,
        {
            if self.claimed_ports[i] == p {
                assert(self.claimed_ports@.contains(p));
                return true;
            }
            i = i + 1;
        }
        assert(!self.claimed_ports@.contains(p));
        false
    }

    /// Hands out the lowest free CID of the range, or reports the pool
    /// exhausted, changing nothing.
    pub fn allocate_cid(&mut self) -> (r: Result<u32, VmmError>)
        requires
            old(self).wf(),
        ensures
            final(self).wf(),
            final(self).cid_start == old(self).cid_start,
            final(self).cid_pool_size == old(self).cid_pool_size,
            final(self).claimed_ports@ == old(self).claimed_ports@,
            r.is_err() <==> old(self).exhausted(),
            match r {
                Ok(c) => {
                    &&& old(self).cid_in_range(c)
                    &&& !old(self).cid_claimed(c)
                    &&& forall|d: u32| old(self).cid_start <= d < c ==> old(self).cid_claimed(d)
                    &&& final(self).claimed_cids@ == old(self).claimed_cids@.push(c)
                    &&& forall|d: u32|
                        final(self).cid_claimed(d) <==> old(self).cid_claimed(d) || d == c
                },
                Err(e) => {
                    &&& e == VmmError::ResourceExhausted
                    &&& final(self).claimed_cids@ == old(self).claimed_cids@
                },
            },
    {
        let end: u32 = self.cid_start + self.cid_pool_size;
        let mut c: u32 = self.cid_start;
        while c < end
            invariant
                self == old(self),
                self.wf(),
                end == self.cid_start + self.cid_pool_size,
                self.cid_start <= c <= end,
                forall|d: u32| self.cid_start <= d < c ==> #[trigger] self.cid_claimed(d),
            decreases end - c,
        {
            if !self.is_cid_claimed(c) {
                self.claimed_cids.push(c);
                proof {
                    lemma_push_contains(old(self).claimed_cids@, c);
                }
                return Ok(c);
            }
            c = c + 1;
        }
        Err(VmmError::ResourceExhausted)
    }

    /// Records `c` as claimed if it is not yet; used when the pool is
    /// rebuilt from the durable records at startup.  Reports whether the
    /// claim was new.
    pub fn claim_cid(&mut self, c: u32) -> (r: bool)
        requires
            old(self).wf(),
        ensures
            final(self).wf(),
            final(self).cid_start == old(self).cid_start,
            final(self).cid_pool_size == old(self).cid_pool_size,
            final(self).claimed_ports@ == old(self).claimed_ports@,
            r == !old(self).cid_claimed(c),
            final(self).cid_claimed(c),
            forall|d: u32| d != c ==> final(self).cid_claimed(d) == old(self).cid_claimed(d),
    {
        if self.is_cid_claimed(c) {
            return false;
        }
        self.claimed_cids.push(c);
        proof {
            lemma_push_contains(old(self).claimed_cids@, c);
        }
        true
    }

    /// Releases the CID `c`; afterwards `c` is free and every other claim
    /// is as it was.
    pub fn release_cid(&mut self, c: u32)
        requires
            old(self).wf(),
        ensures
            final(self).wf(),
            final(self).cid_start == old(self).cid_start,
            final(self).cid_pool_size == old(self).cid_pool_size,
            final(self).claimed_ports@ == old(self).claimed_ports@,
            !final(self).cid_claimed(c),
            forall|d: u32| d != c ==> final(self).cid_claimed(d) == old(self).cid_claimed(d),
    {
        let n = self.claimed_cids.len();
        let mut i: usize = 0;
        while i < n
            invariant
                self == old(self),
                self.wf(),
                n == self.claimed_cids@.len(),
                0 <= i <= n,
                forall|j: int| 0 <= j < i ==> self.claimed_cids@[j] != c,
            decreases n - i,
        {
            if self.claimed_cids[i] == c {
                self.claimed_cids.remove(i);
                proof {
                    lemma_remove_keeps_others(old(self).claimed_cids@, i as int, c);
                }
                return ;
            }
            i = i + 1;
        }
        proof {
            assert(!old(self).claimed_cids@.contains(c));
        }
    }

    /// Claims the port pair `p` exclusively; a pair already claimed is a
    /// conflict and changes nothing.
    pub fn claim_port(&mut self, p: PortClaim) -> (r: Result<(), VmmError>)
        requires
            old(self).wf(),
        ensures
            final(self).wf(),
            final(self).cid_start == old(self).cid_start,
            final(self).cid_pool_size == old(self).cid_pool_size,
            final(self).claimed_cids@ == old(self).claimed_cids@,
            r.is_err() <==> old(self).port_claimed(p),
            match r {
                Ok(()) => {
                    &&& final(self).claimed_ports@ == old(self).claimed_ports@.push(p)
                    &&& final(self).port_claimed(p)
                    &&& forall|q: PortClaim|
                        q != p ==> final(self).port_claimed(q) == old(self).port_claimed(q)
                },
                Err(e) => {
                    &&& e == VmmError::Conflict
                    &&& final(self).claimed_ports@ == old(self).claimed_ports@
                },
            },
    {
        if self.is_port_claimed(p) {
            return Err(VmmError::Conflict);
        }
        self.claimed_ports.push(p);
        proof {
            lemma_push_contains(old(self).claimed_ports@, p);
        }
        Ok(())
    }

    /// Releases the port pair `p`; afterwards `p` is free and every other
    /// claim is as it was.
    pub fn release_port(&mut self, p: PortClaim)
        requires
            old(self).wf(),
        ensures
            final(self).wf(),
            final(self).cid_start == old(self).cid_start,
            final(self).cid_pool_size == old(self).cid_pool_size,
            final(self).claimed_cids@ == old(self).claimed_cids@,
            !final(self).port_claimed(p),
            forall|q: PortClaim| q != p ==> final(self).port_claimed(q) == old(self).port_claimed(q),
    {
        let n = self.claimed_ports.len();
        let mut i: usize = 0;
        while i < n
            invariant
                self == old(self),
                self.wf(),
                n == self.claimed_ports@.len(),
                0 <= i <= n,
                forall|j: int| 0 <= j < i ==> self.claimed_ports@[j] != p,
            decreases n - i,
        {
            if self.claimed_ports[i] == p {
                self.claimed_ports.remove(i);
                proof {
                    lemma_remove_keeps_others(old(self).claimed_ports@, i as int, p);
                }
                return ;
            }
            i = i + 1;
        }
        proof {
            assert(!old(self).claimed_ports@.contains(p));
        }
    }
}

/// After pushing `x`, the sequence contains `x`, keeps everything it
/// contained, contains nothing new besides `x`, and stays duplicate-free
/// if it was and did not contain `x`.
proof fn lemma_push_contains<T>(s: Seq<T>, x: T)
    ensures
        s.push(x).contains(x),
        forall|y: T| s.contains(y) ==> s.push(x).contains(y),
        forall|y: T| s.push(x).contains(y) ==> y == x || s.contains(y),
        s.no_duplicates() && !s.contains(x) ==> s.push(x).no_duplicates(),
{
    assert(s.push(x)[s.len() as int] == x);
    assert forall|y: T| s.contains(y) implies s.push(x).contains(y) by {
        let k = choose|k: int| 0 <= k < s.len() && s[k] == y;
        assert(s.push(x)[k] == y);
    }
    assert forall|y: T| s.push(x).contains(y) implies y == x || s.contains(y) by {
        let k = choose|k: int| 0 <= k < s.push(x).len() && s.push(x)[k] == y;
        if k < s.len() {
            assert(s[k] == y);
        }
    }
}

/// Removing the sole occurrence of `x` (at index `i`) leaves a
/// duplicate-free sequence that no longer contains `x` and contains
/// exactly what it did otherwise.
proof fn lemma_remove_keeps_others<T>(s: Seq<T>, i: int, x: T)
    requires
        0 <= i < s.len(),
        s[i] == x,
        s.no_duplicates(),
    ensures
        s.remove(i).no_duplicates(),
        !s.remove(i).contains(x),
        forall|y: T| y != x ==> s.remove(i).contains(y) == s.contains(y),
{
    s.remove_ensures(i);
    let t = s.remove(i);
    assert forall|k: int| 0 <= k < t.len() implies t[k] == (if k < i {
        s[k]
    } else {
        s[k + 1]
    }) by {}
    assert(t.no_duplicates());
    assert forall|k: int| 0 <= k < t.len() implies t[k] != x by {
        if k < i {
            assert(s[k] == t[k]);
        } else {
            assert(s[k + 1] == t[k]);
        }
    }
    assert forall|y: T| y != x && s.contains(y) implies t.contains(y) by {
        let k = choose|k: int| 0 <= k < s.len() && s[k] == y;
        if k < i {
            assert(t[k] == y);
        } else {
            assert(k != i);
            assert(t[k - 1] == y);
        }
    }
    assert forall|y: T| y != x && t.contains(y) implies s.contains(y) by {
        let k = choose|k: int| 0 <= k < t.len() && t[k] == y;
        if k < i {
            assert(s[k] == y);
        } else {
            assert(s[k + 1] == y);
        }
    }
}

/// Law: a CID inside the range that is not claimed keeps the pool from
/// being exhausted, so a future `allocate_cid` is guaranteed to hand out
/// some CID (`allocate_cid` errs exactly on an exhausted pool).  Together
/// with the contract of `release_cid` this says a released CID becomes
/// eligible again.
pub proof fn lemma_free_cid_allocatable(p: ResourcePool, x: u32)
    requires
        p.wf(),
        p.cid_in_range(x),
        !p.cid_claimed(x),
    ensures
        !p.exhausted(),
{
}

} // verus!
