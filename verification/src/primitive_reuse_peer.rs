//! Primitive reuse: one physical connection shared by every logical consumer
//! of a slot. The first consumer for a slot triggers the real construction;
//! the resulting connection is cached in the process-wide registry, and every
//! later consumer for the same slot receives a handle to the same connection
//! instead of opening a new one.

use vstd::prelude::*;

verus! {

/// What a registry holds for a slot: nothing yet, or the identity of the one
/// cached connection.
pub open spec fn slot_of(reg: Seq<Option<u64>>, slot: int) -> Option<u64> {
    if 0 <= slot < reg.len() {
        reg[slot]
    } else {
        None
    }
}

/// One acquire step at the spec level: the registry afterwards, the
/// connection handed to the consumer, and whether a real construction
/// happened.
pub open spec fn acquire_spec(reg: Seq<Option<u64>>, slot: int, fresh: u64) -> (
    Seq<Option<u64>>,
    u64,
    bool,
) {
    match slot_of(reg, slot) {
        Some(c) => (reg, c, false),
        None => (fill_slot(reg, slot, fresh), fresh, true),
    }
}

/// `reg` grown so that `slot` exists, with `slot` set to `Some(c)` and every
/// other slot unchanged.
pub open spec fn fill_slot(reg: Seq<Option<u64>>, slot: int, c: u64) -> Seq<Option<u64>> {
    if slot < reg.len() {
        reg.update(slot, Some(c))
    } else {
        reg.add(Seq::new((slot + 1 - reg.len()) as nat, |k: int| None)).update(slot, Some(c))
    }
}

/// `n` consumers acquire the same slot one after another, the `i`-th with
/// fresh identity `freshes[i]` on offer: the registry afterwards, the
/// connection each consumer saw, and how many real constructions happened.
pub open spec fn acquire_many(reg: Seq<Option<u64>>, slot: int, freshes: Seq<u64>) -> (
    Seq<Option<u64>>,
    Seq<u64>,
    int,
)
    decreases freshes.len(),
{
    if freshes.len() == 0 {
        (reg, Seq::empty(), 0)
    } else {
        let (reg1, c, built) = acquire_spec(reg, slot, freshes[0]);
        let (reg2, cs, k) = acquire_many(reg1, slot, freshes.skip(1));
        (reg2, seq![c].add(cs), (if built {
            1int
        } else {
            0int
        }) + k)
    }
}

/// Sharing, not reopening: however many consumers acquire one vacant slot,
/// exactly one real construction happens, and every consumer sees that same
/// one connection.
pub proof fn lemma_reuse_constructs_once(reg: Seq<Option<u64>>, slot: int, freshes: Seq<u64>)
    requires
        slot >= 0,
        slot_of(reg, slot) is None,
        freshes.len() >= 1,
    ensures
        acquire_many(reg, slot, freshes).2 == 1,
        forall|i: int|
            0 <= i < freshes.len() ==> acquire_many(reg, slot, freshes).1[i] == freshes[0],
        acquire_many(reg, slot, freshes).1.len() == freshes.len(),
{
    let first = acquire_spec(reg, slot, freshes[0]);
    assert(first.2 && first.1 == freshes[0]);
    assert(slot_of(first.0, slot) == Some(freshes[0]));
    lemma_reuse_stays_filled(first.0, slot, freshes.skip(1), freshes[0]);
    let rest = acquire_many(first.0, slot, freshes.skip(1));
    let all = acquire_many(reg, slot, freshes);
    assert(all.1 == seq![freshes[0]].add(rest.1));
    assert(all.2 == 1 + rest.2);
    assert forall|i: int| 0 <= i < freshes.len() implies all.1[i] == freshes[0] by {
        if i >= 1 {
            assert(all.1[i] == rest.1[i - 1]);
        }
    }
}

/// Once a slot is filled, later acquires build nothing and all see the
/// cached connection.
pub proof fn lemma_reuse_stays_filled(
    reg: Seq<Option<u64>>,
    slot: int,
    freshes: Seq<u64>,
    c: u64,
)
    requires
        slot >= 0,
        slot_of(reg, slot) == Some(c),
    ensures
        acquire_many(reg, slot, freshes).2 == 0,
        forall|i: int| 0 <= i < freshes.len() ==> acquire_many(reg, slot, freshes).1[i] == c,
        acquire_many(reg, slot, freshes).1.len() == freshes.len(),
    decreases freshes.len(),
{
    if freshes.len() > 0 {
        lemma_reuse_stays_filled(reg, slot, freshes.skip(1), c);
    }
}

/// The process-wide registry backing primitive reuse: one optional cached
/// connection identity per slot.
#[derive(Debug)]
pub struct GlobalState {
    pub slots: Vec<Option<u64>>,
}

impl GlobalState {
    pub fn new() -> (r: GlobalState)
        ensures
            r.slots@ == Seq::<Option<u64>>::empty(),
    {
        GlobalState { slots: Vec::new() }
    }

    pub fn lookup(&self, slot: usize) -> (r: Option<u64>)
        ensures
            r == slot_of(self.slots@, slot as int),
    {
        if slot < self.slots.len() {
            self.slots[slot]
        } else {
            None
        }
    }

    /// Cache connection `conn` for `slot`, growing the registry as needed.
    pub fn store(&mut self, slot: usize, conn: u64)
        ensures
            final(self).slots@ == fill_slot(old(self).slots@, slot as int, conn),
    {
        proof {
            assert(self.slots@ =~= old(self).slots@.add(
                Seq::new((self.slots@.len() - old(self).slots@.len()) as nat, |j: int| None),
            ));
        }
        while self.slots.len() <= slot
            invariant
                old(self).slots@.len() <= self.slots@.len(),
                self.slots@.len() <= slot + 1 || self.slots@.len() == old(self).slots@.len(),
                self.slots@ == old(self).slots@.add(
                    Seq::new((self.slots@.len() - old(self).slots@.len()) as nat, |j: int| None),
                ),
            decreases slot + 1 - self.slots.len(),
        {
            self.slots.push(None);
            proof {
                assert(self.slots@ =~= old(self).slots@.add(
                    Seq::new((self.slots@.len() - old(self).slots@.len()) as nat, |j: int| None),
                ));
            }
        }
        self.slots.set(slot, Some(conn));
        proof {
            assert(self.slots@ =~= fill_slot(old(self).slots@, slot as int, conn));
        }
    }

    /// One consumer acquires `slot`. A cached connection is handed out
    /// as-is; a vacant slot is filled with `fresh` and the `bool` result
    /// says that a real construction must happen.
    pub fn acquire(&mut self, slot: usize, fresh: u64) -> (r: (u64, bool))
        ensures
            (final(self).slots@, r.0, r.1) == acquire_spec(old(self).slots@, slot as int, fresh),
    {
        if slot < self.slots.len() {
            if let Some(c) = self.slots[slot] {
                return (c, false);
            }
        }
        proof {
            assert(self.slots@ =~= old(self).slots@.add(
                Seq::new((self.slots@.len() - old(self).slots@.len()) as nat, |j: int| None),
            ));
        }
        while self.slots.len() <= slot
            invariant
                old(self).slots@.len() <= self.slots@.len(),
                self.slots@.len() <= slot + 1 || self.slots@.len() == old(self).slots@.len(),
                self.slots@ == old(self).slots@.add(
                    Seq::new((self.slots@.len() - old(self).slots@.len()) as nat, |j: int| None),
                ),
            decreases slot + 1 - self.slots.len(),
        {
            self.slots.push(None);
            proof {
                assert(self.slots@ =~= old(self).slots@.add(
                    Seq::new((self.slots@.len() - old(self).slots@.len()) as nat, |j: int| None),
                ));
            }
        }
        self.slots.set(slot, Some(fresh));
        proof {
            assert(self.slots@ =~= fill_slot(old(self).slots@, slot as int, fresh));
        }
        (fresh, true)
    }
}

} // verus!
