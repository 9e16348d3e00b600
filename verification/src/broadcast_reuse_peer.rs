//! Broadcast reuse: one upstream connection fanned out to independent
//! downstream consumers. Each consumer owns a bounded queue of configured
//! capacity; a slow consumer that would overflow its queue loses its oldest
//! queued message in favor of the newest data, so no single slow reader
//! stalls the upstream or the other readers. Downstream consumers are
//! read-only: a write attempt fails at once.

use vstd::prelude::*;

use crate::primitive_reuse_peer;

verus! {

/// One push into a bounded queue: the oldest message is dropped first when
/// the queue is already full.
pub open spec fn push_spec(q: Seq<Seq<u8>>, cap: int, m: Seq<u8>) -> Seq<Seq<u8>> {
    if q.len() < cap {
        q.push(m)
    } else {
        q.skip(1).push(m)
    }
}

/// All of `ms` pushed, oldest-first, into `q`.
pub open spec fn push_all_spec(q: Seq<Seq<u8>>, cap: int, ms: Seq<Seq<u8>>) -> Seq<Seq<u8>>
    decreases ms.len(),
{
    if ms.len() == 0 {
        q
    } else {
        push_all_spec(push_spec(q, cap, ms[0]), cap, ms.skip(1))
    }
}

/// A consumer that falls behind loses only the oldest excess: after any
/// message sequence `ms` is pushed into an initially empty queue of capacity
/// `cap`, the queue holds exactly the last `min(|ms|, cap)` messages, in
/// order; every earlier message is the only thing lost.
pub proof fn lemma_slow_consumer_keeps_latest(q: Seq<Seq<u8>>, cap: int, ms: Seq<Seq<u8>>)
    requires
        cap >= 1,
        q.len() <= cap,
    ensures
        ms.len() + q.len() <= cap ==> push_all_spec(q, cap, ms) == q.add(ms),
        ms.len() + q.len() > cap && ms.len() <= cap ==> push_all_spec(q, cap, ms) == q.skip(
            q.len() + ms.len() - cap,
        ).add(ms),
        ms.len() > cap ==> push_all_spec(q, cap, ms) == ms.skip(ms.len() - cap),
    decreases ms.len(),
{
    if ms.len() == 0 {
        assert(push_all_spec(q, cap, ms) =~= q.add(ms));
        assert(q.skip(0) =~= q);
    } else {
        let q1 = push_spec(q, cap, ms[0]);
        let rest = ms.skip(1);
        assert(ms =~= seq![ms[0]].add(rest));
        lemma_slow_consumer_keeps_latest(q1, cap, rest);
        assert(push_all_spec(q, cap, ms) == push_all_spec(q1, cap, rest));
        if q.len() < cap {
            assert(q1 =~= q.add(seq![ms[0]]));
            if ms.len() + q.len() <= cap {
                assert(push_all_spec(q1, cap, rest) == q1.add(rest));
                assert(q1.add(rest) =~= q.add(ms));
            } else if ms.len() <= cap {
                let d: int = q.len() + ms.len() - cap;
                assert(1 <= d <= q.len());
                assert(push_all_spec(q1, cap, rest) == q1.skip(d).add(rest));
                assert(q1.skip(d) =~= q.skip(d).add(seq![ms[0]]));
                assert(q1.skip(d).add(rest) =~= q.skip(d).add(ms));
            } else {
                if rest.len() > cap {
                    assert(push_all_spec(q1, cap, rest) == rest.skip(rest.len() - cap));
                    assert(rest.skip(rest.len() - cap) =~= ms.skip(ms.len() - cap));
                } else {
                    assert(rest.len() == cap);
                    let d1: int = q1.len() as int;
                    assert(push_all_spec(q1, cap, rest) == q1.skip(d1).add(rest));
                    assert(q1.skip(d1) =~= Seq::<Seq<u8>>::empty());
                    assert(q1.skip(d1).add(rest) =~= rest);
                    assert(rest =~= ms.skip(ms.len() - cap));
                }
            }
        } else {
            assert(q.len() == cap);
            assert(q1 =~= q.skip(1).add(seq![ms[0]]));
            assert(q1.len() == cap);
            if ms.len() + q.len() <= cap {
                assert(false);
            } else if ms.len() <= cap {
                let d: int = q.len() + ms.len() - cap;
                if rest.len() == 0 {
                    assert(push_all_spec(q1, cap, rest) == q1);
                    assert(q1 =~= q.skip(d).add(ms));
                } else {
                    let d1: int = q1.len() + rest.len() - cap;
                    assert(d1 == rest.len());
                    assert(push_all_spec(q1, cap, rest) == q1.skip(d1).add(rest));
                    assert(rest.len() <= cap - 1);
                    assert(q1.skip(d1) =~= q.skip(1 + rest.len() as int).add(seq![ms[0]]));
                    assert(q1.skip(d1).add(rest) =~= q.skip(d).add(ms));
                }
            } else {
                if rest.len() > cap {
                    assert(push_all_spec(q1, cap, rest) == rest.skip(rest.len() - cap));
                    assert(rest.skip(rest.len() - cap) =~= ms.skip(ms.len() - cap));
                } else {
                    assert(rest.len() == cap);
                    let d1: int = q1.len() as int;
                    assert(push_all_spec(q1, cap, rest) == q1.skip(d1).add(rest));
                    assert(q1.skip(d1) =~= Seq::<Seq<u8>>::empty());
                    assert(q1.skip(d1).add(rest) =~= rest);
                    assert(rest =~= ms.skip(ms.len() - cap));
                }
            }
        }
    }
}

/// One downstream consumer's bounded queue.
#[derive(Debug)]
pub struct BroadcastQueue {
    pub items: Vec<Vec<u8>>,
    pub cap: usize,
}

impl BroadcastQueue {
    pub open spec fn well_formed(self) -> bool {
        self.cap >= 1 && self.items@.len() <= self.cap
    }

    pub open spec fn view_items(self) -> Seq<Seq<u8>> {
        self.items@.map_values(|v: Vec<u8>| v@)
    }

    pub fn new(cap: usize) -> (r: BroadcastQueue)
        requires
            cap >= 1,
        ensures
            r.well_formed(),
            r.cap == cap,
            r.view_items() == Seq::<Seq<u8>>::empty(),
    {
        let q = BroadcastQueue { items: Vec::new(), cap };
        proof {
            assert(q.view_items() =~= Seq::<Seq<u8>>::empty());
        }
        q
    }

    /// Push the newest message, dropping this consumer's oldest one if the
    /// queue is already full.
    pub fn push(&mut self, m: Vec<u8>)
        requires
            old(self).well_formed(),
        ensures
            final(self).well_formed(),
            final(self).cap == old(self).cap,
            final(self).view_items() == push_spec(
                old(self).view_items(),
                old(self).cap as int,
                m@,
            ),
    {
        let ghost olditems = self.view_items();
        if self.items.len() >= self.cap {
            self.items.remove(0);
            proof {
                assert(self.view_items() =~= olditems.skip(1));
            }
        }
        let ghost mid = self.view_items();
        self.items.push(m);
        proof {
            assert(self.view_items() =~= mid.push(m@));
            assert(self.view_items() =~= push_spec(olditems, old(self).cap as int, m@));
        }
    }

    /// Take the oldest queued message, if any.
    pub fn pop(&mut self) -> (r: Option<Vec<u8>>)
        requires
            old(self).well_formed(),
        ensures
            final(self).well_formed(),
            final(self).cap == old(self).cap,
            old(self).view_items().len() == 0 ==> r is None && final(self).view_items() == old(
                self,
            ).view_items(),
            old(self).view_items().len() > 0 ==> {
                &&& r matches Some(m)
                &&& m@ == old(self).view_items()[0]
                &&& final(self).view_items() == old(self).view_items().skip(1)
            },
    {
        if self.items.len() == 0 {
            return None;
        }
        let m = self.items.remove(0);
        proof {
            assert(self.view_items() =~= old(self).view_items().skip(1));
        }
        Some(m)
    }
}

/// Fan one upstream message out: each consumer's queue takes it
/// independently; no consumer's backlog affects any other's queue.
pub fn fan_out(queues: &mut Vec<BroadcastQueue>, m: &Vec<u8>)
    requires
        forall|i: int| 0 <= i < old(queues)@.len() ==> old(queues)@[i].well_formed(),
    ensures
        final(queues)@.len() == old(queues)@.len(),
        forall|i: int|
            0 <= i < old(queues)@.len() ==> {
                &&& final(queues)@[i].well_formed()
                &&& final(queues)@[i].cap == old(queues)@[i].cap
                &&& final(queues)@[i].view_items() == push_spec(
                    old(queues)@[i].view_items(),
                    old(queues)@[i].cap as int,
                    m@,
                )
            },
{
    let n: usize = queues.len();
    let mut i: usize = 0;
    while i < n
        invariant
            i <= n,
            n == queues@.len(),
            n == old(queues)@.len(),
            forall|k: int| i <= k < n ==> queues@[k] == old(queues)@[k],
            forall|k: int| i <= k < n ==> old(queues)@[k].well_formed(),
            forall|k: int|
                0 <= k < i ==> {
                    &&& queues@[k].well_formed()
                    &&& queues@[k].cap == old(queues)@[k].cap
                    &&& queues@[k].view_items() == push_spec(
                        old(queues)@[k].view_items(),
                        old(queues)@[k].cap as int,
                        m@,
                    )
                },
        decreases n - i,
    {
        let ghost before = queues@;
        let mut taken = queues.remove(i);
        taken.push(copy_bytes(m));
        queues.insert(i, taken);
        proof {
            assert(queues@ =~= before.update(i as int, queues@[i as int]));
        }
        i = i + 1;
    }
}

/// A fresh vector with the same bytes.
fn copy_bytes(v: &Vec<u8>) -> (r: Vec<u8>)
    ensures
        r@ == v@,
{
    let mut r: Vec<u8> = Vec::new();
    let mut i: usize = 0;
    while i < v.len()
        invariant
            i <= v@.len(),
            r@ == v@.take(i as int),
        decreases v@.len() - i,
    {
        r.push(v[i]);
        i = i + 1;
    }
    proof {
        assert(r@ =~= v@);
    }
    r
}

/// The process-wide registry backing broadcast reuse: the one cached
/// upstream connection per slot, shared exactly as primitive reuse shares
/// its connection.
#[derive(Debug)]
pub struct GlobalState {
    pub upstream: primitive_reuse_peer::GlobalState,
}

impl GlobalState {
    pub fn new() -> (r: GlobalState)
        ensures
            r.upstream.slots@ == Seq::<Option<u64>>::empty(),
    {
        GlobalState { upstream: primitive_reuse_peer::GlobalState::new() }
    }
}

} // verus!
