//! A pool of TCP/UDP ports that are handed out one at a time.

use std::collections::HashSet;
use vstd::prelude::*;

verus! {

/// What a [`PortPool`] holds: the free ports, as a stack whose last element is
/// handed out next, and the ports that are in use.
#[verifier::ext_equal]
pub struct PoolView {
    pub available: Seq<u16>,
    pub used: Set<u16>,
}

/// The ports from `start` to `end`, both included, in ascending order.
pub open spec fn port_span(start: u16, end: u16) -> Seq<u16> {
    if start <= end {
        Seq::new((end - start + 1) as nat, |i: int| (start + i) as u16)
    } else {
        Seq::empty()
    }
}

impl PoolView {
    /// The pool that has every port from `start` to `end` free.
    pub open spec fn spanning(start: u16, end: u16) -> PoolView {
        PoolView { available: port_span(start, end), used: Set::empty() }
    }

    /// No port is free twice, and no port is both free and in use.
    pub open spec fn wf(self) -> bool {
        &&& self.available.no_duplicates()
        &&& self.used.finite()
        &&& forall|i: int|
            0 <= i < self.available.len() ==> !self.used.contains(#[trigger] self.available[i])
    }

    /// Every port that the pool looks after, free or in use.
    pub open spec fn ports(self) -> Set<u16> {
        self.available.to_set() + self.used
    }

    /// Whether no port is free.
    pub open spec fn exhausted(self) -> bool {
        self.available.len() == 0
    }

    /// The port that is handed out next.
    pub open spec fn next_port(self) -> u16 {
        self.available.last()
    }

    /// The pool once the next port has been handed out.
    pub open spec fn after_acquire(self) -> PoolView {
        PoolView {
            available: self.available.drop_last(),
            used: self.used.insert(self.next_port()),
        }
    }

    /// The pool once `port` has been given back. A port that is not in use changes
    /// nothing.
    pub open spec fn after_release(self, port: u16) -> PoolView {
        if self.used.contains(port) {
            PoolView { available: self.available.push(port), used: self.used.remove(port) }
        } else {
            self
        }
    }
}

/// The pool once `n` ports have been handed out one after the other.
pub open spec fn after_acquires(pool: PoolView, n: nat) -> PoolView
    decreases n,
{
    if n == 0 {
        pool
    } else {
        after_acquires(pool, (n - 1) as nat).after_acquire()
    }
}

/// A pool of ports.
pub struct PortPool {
    available: Vec<u16>,
    used: HashSet<u16>,
}

impl View for PortPool {
    type V = PoolView;

    closed spec fn view(&self) -> PoolView {
        PoolView { available: self.available@, used: self.used@ }
    }
}

impl PortPool {
    /// The pool of the ports from `start` to `end`, both included. It is empty
    /// where `start` is greater than `end`.
    pub fn from_range(start: u16, end: u16) -> (res: Self)
        ensures
            res@ == PoolView::spanning(start, end),
            res@.wf(),
    {
        let mut available: Vec<u16> = Vec::new();
        let mut next: u32 = start as u32;
        while next <= end as u32
            invariant
                start <= next,
                next <= end + 1 || available@.len() == 0,
                available@.len() == next - start,
                forall|i: int| 0 <= i < available@.len() ==> available@[i] == start + i,
            decreases end + 1 - next,
        {
            available.push(next as u16);
            next = next + 1;
        }
        let res = PortPool { available, used: HashSet::new() };
        assert(res@.available =~= port_span(start, end));
        res
    }

    /// Hands out the port that was freed last, or the highest of those never handed
    /// out.
    pub fn acquire(&mut self) -> (res: Option<u16>)
        ensures
            old(self)@.exhausted() ==> res is None && final(self)@ == old(self)@,
            !old(self)@.exhausted() ==> res == Some(old(self)@.next_port()) && final(self)@
                == old(self)@.after_acquire(),
            old(self)@.wf() ==> final(self)@.wf(),
    {
        if let Some(port) = self.available.pop() {
            self.used.insert(port);
            assert(self@ =~= old(self)@.after_acquire());
            Some(port)
        } else {
            None
        }
    }

    /// Takes a port back. A port that is not in use changes nothing.
    pub fn release(&mut self, port: u16)
        ensures
            final(self)@ == old(self)@.after_release(port),
            old(self)@.wf() ==> final(self)@.wf(),
    {
        if self.used.remove(&port) {
            self.available.push(port);
        }
        assert(self@ =~= old(self)@.after_release(port));
    }
}

/// Handing a port out and taking ports back keep the pool well-formed.
pub proof fn law_pool_stays_well_formed(pool: PoolView, port: u16)
    requires
        pool.wf(),
    ensures
        !pool.exhausted() ==> pool.after_acquire().wf(),
        pool.after_release(port).wf(),
{
}

/// A port that is handed out was free, and is in use from then on.
pub proof fn law_acquired_port_was_free(pool: PoolView)
    requires
        pool.wf(),
        !pool.exhausted(),
    ensures
        !pool.used.contains(pool.next_port()),
        pool.ports().contains(pool.next_port()),
        pool.after_acquire().used.contains(pool.next_port()),
        !pool.after_acquire().available.contains(pool.next_port()),
{
    assert(pool.available.to_set().contains(pool.available.last()));
}

/// Giving back the port that was just handed out restores the pool as it was.
pub proof fn law_release_undoes_acquire(pool: PoolView)
    requires
        pool.wf(),
        !pool.exhausted(),
    ensures
        pool.after_acquire().after_release(pool.next_port()) == pool,
{
    let restored = pool.after_acquire().after_release(pool.next_port());
    assert(restored.available =~= pool.available);
    assert(restored.used =~= pool.used);
}

/// A port that was given back is the next one to be handed out.
pub proof fn law_released_port_comes_next(pool: PoolView, port: u16)
    requires
        pool.used.contains(port),
    ensures
        !pool.after_release(port).exhausted(),
        pool.after_release(port).next_port() == port,
{
}

/// Giving the same port back twice is the same as giving it back once.
pub proof fn law_second_release_is_ignored(pool: PoolView, port: u16)
    ensures
        pool.after_release(port).after_release(port) == pool.after_release(port),
{
}

/// A pool never gains or loses a port.
pub proof fn law_ports_are_kept(pool: PoolView, port: u16)
    ensures
        !pool.exhausted() ==> pool.after_acquire().ports() == pool.ports(),
        pool.after_release(port).ports() == pool.ports(),
{
    if !pool.exhausted() {
        let after = pool.after_acquire();
        assert forall|p: u16| after.ports().contains(p) == pool.ports().contains(p) by {
            if pool.available.contains(p) {
                let i = choose|i: int| 0 <= i < pool.available.len() && pool.available[i] == p;
                if i < pool.available.len() - 1 {
                    assert(after.available[i] == p);
                }
            }
            if after.available.contains(p) {
                let i = choose|i: int| 0 <= i < after.available.len() && after.available[i] == p;
                assert(pool.available[i] == p);
            }
        }
        assert(after.ports() =~= pool.ports());
    }
    if pool.used.contains(port) {
        let after = pool.after_release(port);
        assert forall|p: u16| after.ports().contains(p) == pool.ports().contains(p) by {
            if pool.available.contains(p) {
                let i = choose|i: int| 0 <= i < pool.available.len() && pool.available[i] == p;
                assert(after.available[i] == p);
            }
            if after.available.contains(p) {
                let i = choose|i: int| 0 <= i < after.available.len() && after.available[i] == p;
                if i < pool.available.len() {
                    assert(pool.available[i] == p);
                }
            }
            assert(after.available[pool.available.len() as int] == port);
        }
        assert(after.ports() =~= pool.ports());
    }
}

/// A pool made for a range looks after the ports of that range and no others.
pub proof fn law_span_ports(start: u16, end: u16, port: u16)
    ensures
        PoolView::spanning(start, end).wf(),
        PoolView::spanning(start, end).ports().contains(port) <==> start <= port <= end,
{
    let pool = PoolView::spanning(start, end);
    if start <= port <= end {
        assert(pool.available[port - start] == port);
    }
}

/// The free ports and those in use add up to all ports of the pool, so a pool is
/// exhausted exactly when every one of its ports is in use.
pub proof fn law_ports_add_up(pool: PoolView)
    requires
        pool.wf(),
    ensures
        pool.available.len() + pool.used.len() == pool.ports().len(),
        pool.exhausted() <==> pool.used == pool.ports(),
{
    pool.available.unique_seq_to_set();
    pool.available.lemma_cardinality_of_set();
    vstd::set_lib::lemma_set_disjoint_lens(pool.available.to_set(), pool.used);
    if !pool.exhausted() {
        law_acquired_port_was_free(pool);
    } else {
        assert(pool.ports() =~= pool.used);
    }
}

/// A pool made for a range hands its ports out from the highest down to the lowest,
/// and has no further port after that.
pub proof fn law_span_is_handed_out_downwards(start: u16, end: u16, n: nat)
    requires
        start <= end,
        n <= end - start + 1,
    ensures
        after_acquires(PoolView::spanning(start, end), n).wf(),
        after_acquires(PoolView::spanning(start, end), n).available == port_span(start, end).take(
            end - start + 1 - n,
        ),
        n <= end - start ==> after_acquires(PoolView::spanning(start, end), n).next_port() == end
            - n,
        after_acquires(PoolView::spanning(start, end), n).exhausted() <==> n == end - start + 1,
    decreases n,
{
    let pool = PoolView::spanning(start, end);
    if n == 0 {
        law_span_ports(start, end, start);
        assert(port_span(start, end).take(end - start + 1) =~= port_span(start, end));
    } else {
        law_span_is_handed_out_downwards(start, end, (n - 1) as nat);
        let before = after_acquires(pool, (n - 1) as nat);
        assert(before.available.drop_last() =~= port_span(start, end).take(end - start + 1 - n));
    }
}

/// A new pool has each port of its range free, from the lowest to the highest, and none in
/// use.
pub proof fn law_new_pool_has_its_range_free(start: u16, end: u16)
    ensures
        PoolView::spanning(start, end).used == Set::<u16>::empty(),
        start > end ==> PoolView::spanning(start, end).available.len() == 0,
        start <= end ==> {
            let free = PoolView::spanning(start, end).available;
            &&& free.len() == end - start + 1
            &&& forall|i: int| 0 <= i <= end - start ==> (#[trigger] free[i]) == start + i
        },
{
}

/// Handing a port out takes the last free port, and no other, from the free ones to those in
/// use. There is none to hand out exactly when none is free.
pub proof fn law_acquire_moves_the_last_free_port(pool: PoolView)
    ensures
        pool.exhausted() <==> pool.available.len() == 0,
        pool.available.len() > 0 ==> {
            let port = pool.available[pool.available.len() - 1];
            let after = pool.after_acquire();
            &&& pool.next_port() == port
            &&& after.available.push(port) == pool.available
            &&& forall|p: u16| #[trigger]
                after.used.contains(p) <==> pool.used.contains(p) || p == port
        },
{
    if pool.available.len() > 0 {
        assert(pool.after_acquire().available.push(pool.next_port()) =~= pool.available);
    }
}

/// Giving a port back moves it, and no other, from those in use to the end of the free ones.
/// A port that is not in use stays where it is, and so does everything else.
pub proof fn law_release_moves_the_port(pool: PoolView, port: u16)
    ensures
        !pool.used.contains(port) ==> pool.after_release(port) == pool,
        pool.used.contains(port) ==> {
            let after = pool.after_release(port);
            &&& after.available == pool.available + seq![port]
            &&& forall|p: u16| #[trigger]
                after.used.contains(p) <==> pool.used.contains(p) && p != port
        },
{
    assert(pool.available.push(port) =~= pool.available + seq![port]);
}

/// In a well-formed pool no port is free twice, or both free and in use. The ports of a pool
/// are those that are free or in use.
pub proof fn law_well_formed_pool(pool: PoolView, i: int, j: int, port: u16)
    ensures
        pool.wf() && 0 <= i < j < pool.available.len() ==> pool.available[i] != pool.available[j],
        pool.wf() && 0 <= i < pool.available.len() ==> !pool.used.contains(pool.available[i]),
        pool.ports().contains(port) <==> pool.available.contains(port) || pool.used.contains(port),
{
}

} // verus!
