//! The device bus: the fixed-capacity allocation table that
//! multiplexes concurrently connected clients onto distinct virtual
//! device slots.
//!
//! The table is the only state shared across sessions; the boundary
//! layer guards it with one short-held lock and creates or tears down
//! the actual device outside that lock, once a slot has been claimed
//! or freed here. A claim takes the lowest free slot, so two claims
//! yield distinct slots, a freed slot can be claimed again, and a
//! claim on a full table is refused without changing anything.

use vstd::prelude::*;
use vstd::pervasive::VecAdditionalExecFns;

verus! {

/// Why the bus refused an allocation.
#[derive(Clone, Copy, PartialEq, Eq, Structural, Debug)]
pub enum BusError {
    /// Every slot of the table is occupied.
    Exhausted,
}

/// The lowest free slot of a table, if any.
pub open spec fn first_free_slot(slots: Seq<bool>) -> Option<int>
    decreases slots.len(),
{
    if slots.len() == 0 {
        None
    } else if !slots[0] {
        Some(0)
    } else {
        match first_free_slot(slots.subrange(1, slots.len() as int)) {
            None => None,
            Some(i) => Some(i + 1),
        }
    }
}

/// What the lowest free slot is: a free slot below which every slot is
/// occupied, or nothing exactly when the table is full.
pub proof fn lemma_first_free_slot(slots: Seq<bool>)
    ensures
        match first_free_slot(slots) {
            Some(i) => 0 <= i < slots.len() && !slots[i] && (forall|j: int|
                0 <= j < i ==> slots[j]),
            None => forall|j: int| 0 <= j < slots.len() ==> slots[j],
        },
    decreases slots.len(),
{
    if slots.len() > 0 && slots[0] {
        let rest = slots.subrange(1, slots.len() as int);
        lemma_first_free_slot(rest);
        match first_free_slot(rest) {
            Some(i) => {
                assert(forall|j: int| 0 <= j < i + 1 ==> slots[j]) by {
                    assert(forall|j: int| 1 <= j < i + 1 ==> slots[j] == rest[j - 1]);
                }
            },
            None => {
                assert(forall|j: int| 1 <= j < slots.len() ==> slots[j] == rest[j - 1]);
            },
        }
    }
}

/// The claim transition: occupy the lowest free slot, or refuse with
/// `Exhausted` leaving the table unchanged.
pub open spec fn spec_claim(slots: Seq<bool>) -> (Seq<bool>, Result<int, BusError>) {
    match first_free_slot(slots) {
        Some(i) => (slots.update(i, true), Ok(i)),
        None => (slots, Err(BusError::Exhausted)),
    }
}

/// The free transition: mark one slot free again.
pub open spec fn spec_free(slots: Seq<bool>, slot: int) -> Seq<bool> {
    slots.update(slot, false)
}

/// The allocation table of the device bus: one entry per device slot,
/// true while the slot's device is plugged in.
pub struct DeviceBus {
    used: Vec<bool>,
}

impl DeviceBus {
    /// The occupancy of each slot.
    pub closed spec fn slots(self) -> Seq<bool> {
        self.used@
    }

    /// A bus with this many slots, all free.
    pub fn new(capacity: usize) -> (bus: DeviceBus)
        ensures
            bus.slots().len() == capacity,
            forall|j: int| 0 <= j < capacity ==> !bus.slots()[j],
    {
        let mut used: Vec<bool> = Vec::new();
        let mut i: usize = 0;
        while i < capacity
            invariant
                i <= capacity,
                used@.len() == i,
                forall|j: int| 0 <= j < i ==> !used@[j],
            decreases capacity - i,
        {
            used.push(false);
            i += 1;
        }
        DeviceBus { used }
    }

    /// How many slots the bus was created with.
    pub fn capacity(&self) -> (n: usize)
        ensures
            n == self.slots().len(),
    {
        self.used.len()
    }

    /// Whether this slot currently holds a device.
    pub fn slot_used(&self, slot: usize) -> (b: bool)
        requires
            (slot as int) < self.slots().len(),
        ensures
            b == self.slots()[slot as int],
    {
        self.used[slot]
    }

    /// Claim the lowest free slot, or refuse with `Exhausted` when
    /// every slot is occupied, leaving the table unchanged.
    #[verifier::loop_isolation(false)]
    pub fn claim_slot(&mut self) -> (r: Result<usize, BusError>)
        ensures
            match r {
                Ok(slot) => {
                    &&& (slot as int) < old(self).slots().len()
                    &&& !old(self).slots()[slot as int]
                    &&& forall|j: int| 0 <= j < slot as int ==> old(self).slots()[j]
                    &&& final(self).slots() == old(self).slots().update(slot as int, true)
                    &&& spec_claim(old(self).slots()) == (
                        final(self).slots(),
                        Ok::<int, BusError>(slot as int),
                    )
                },
                Err(e) => {
                    &&& e == BusError::Exhausted
                    &&& final(self).slots() == old(self).slots()
                    &&& forall|j: int|
                        0 <= j < old(self).slots().len() ==> old(self).slots()[j]
                    &&& spec_claim(old(self).slots()) == (
                        old(self).slots(),
                        Err::<int, BusError>(e),
                    )
                },
            },
    {
        let ghost slots0 = self.used@;
        let mut i: usize = 0;
        while i < self.used.len()
            invariant
                self.used@ == slots0,
                i <= slots0.len(),
                forall|j: int| 0 <= j < i ==> slots0[j],
            decreases slots0.len() - i,
        {
            if !self.used[i] {
                self.used.set(i, true);
                proof {
                    lemma_first_free_slot(slots0);
                    assert(first_free_slot(slots0) == Some(i as int));
                }
                return Ok(i);
            }
            i += 1;
        }
        proof {
            lemma_first_free_slot(slots0);
            assert(first_free_slot(slots0) is None);
        }
        Err(BusError::Exhausted)
    }

    /// Free a claimed slot; each handle is freed exactly once.
    pub fn free_slot(&mut self, slot: usize)
        requires
            (slot as int) < old(self).slots().len(),
            old(self).slots()[slot as int],
        ensures
            final(self).slots() == spec_free(old(self).slots(), slot as int),
    {
        self.used.set(slot, false);
    }
}

/// Two claims in a row yield two distinct slots: a handle is never
/// handed out twice while it is plugged in.
pub proof fn lemma_distinct_handles(slots: Seq<bool>)
    ensures
        ({
            let (slots1, r1) = spec_claim(slots);
            let (_, r2) = spec_claim(slots1);
            r1 is Ok && r2 is Ok ==> r1->Ok_0 != r2->Ok_0
        }),
{
    lemma_first_free_slot(slots);
    lemma_first_free_slot(spec_claim(slots).0);
}

/// Freeing a slot always lets a subsequent claim succeed: the bus is
/// never exhausted right after an unplug.
pub proof fn lemma_reuse_after_free(slots: Seq<bool>, slot: int)
    requires
        0 <= slot < slots.len(),
    ensures
        spec_claim(spec_free(slots, slot)).1 is Ok,
{
    lemma_first_free_slot(spec_free(slots, slot));
    assert(!spec_free(slots, slot)[slot]);
}

/// When every other slot stays occupied, the freed slot itself is the
/// one a subsequent claim reuses, and the table returns to its former
/// occupancy.
pub proof fn lemma_exact_reuse(slots: Seq<bool>, slot: int)
    requires
        0 <= slot < slots.len(),
        slots[slot],
        forall|j: int| 0 <= j < slots.len() && j != slot ==> slots[j],
    ensures
        spec_claim(spec_free(slots, slot)) == (slots, Ok::<int, BusError>(slot)),
{
    lemma_first_free_slot(spec_free(slots, slot));
    assert(!spec_free(slots, slot)[slot]);
    assert(first_free_slot(spec_free(slots, slot)) == Some(slot));
    assert(spec_free(slots, slot).update(slot, true) =~= slots);
}

/// A claim beyond capacity fails: on a full table it is refused and
/// the table is unchanged.
pub proof fn lemma_exhausted_when_full(slots: Seq<bool>)
    requires
        forall|j: int| 0 <= j < slots.len() ==> slots[j],
    ensures
        spec_claim(slots) == (slots, Err::<int, BusError>(BusError::Exhausted)),
{
    lemma_first_free_slot(slots);
}

} // verus!
