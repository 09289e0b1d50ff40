//! The circular buffer of the most recent price observations.

use vstd::prelude::*;

use crate::address::Address;

verus! {

/// The number of price observations that are kept. At about 5 seconds a ledger they cover some 100
/// seconds.
pub const MAX_OBSERVATIONS: u32 = 20;

/// A price as it was reported.
#[derive(Clone, Copy, Debug, PartialEq, Eq)]
pub struct PriceObservation {
    pub price: i128,
    pub reporter: Address,
    /// The ledger in which the price was reported.
    pub ledger: u32,
}

/// The last `n` items of a sequence, or all of them where there are fewer.
pub open spec fn last_of<T>(s: Seq<T>, n: int) -> Seq<T> {
    if s.len() <= n {
        s
    } else {
        s.subrange(s.len() - n, s.len() as int)
    }
}

/// The slot of the `k`-th oldest of `count` observations, where `next` is the slot to be filled
/// next.
pub open spec fn slot_of(count: u32, next: u32, k: int) -> int {
    (next + MAX_OBSERVATIONS - count + k) % (MAX_OBSERVATIONS as int)
}

/// Slots, a count and a next slot that make up a buffer.
pub open spec fn is_buffer(
    slots: Seq<Option<PriceObservation>>,
    count: u32,
    next: u32,
) -> bool {
    &&& slots.len() == MAX_OBSERVATIONS
    &&& count <= MAX_OBSERVATIONS
    &&& next < MAX_OBSERVATIONS
    &&& forall|k: int| 0 <= k < count ==> slots[#[trigger] slot_of(count, next, k)] is Some
}

/// The observations in a buffer, from the oldest to the newest.
pub open spec fn buffered(
    slots: Seq<Option<PriceObservation>>,
    count: u32,
    next: u32,
) -> Seq<PriceObservation> {
    Seq::new(count as nat, |k: int| slots[slot_of(count, next, k)]->0)
}

/// The slot of the `k`-th of the newest `window` observations, counted from the first of them.
proof fn lemma_slot_in_window(count: u32, next: u32, window: u32, k: u32)
    requires
        k < window <= count <= MAX_OBSERVATIONS,
        next < MAX_OBSERVATIONS,
    ensures
        ((next + MAX_OBSERVATIONS - window) % (MAX_OBSERVATIONS as int) + k) % (
        MAX_OBSERVATIONS as int) == slot_of(count, next, count - window + k),
{
}

/// The slot after another.
pub open spec fn slot_after(next: u32) -> u32 {
    ((next + 1) % (MAX_OBSERVATIONS as int)) as u32
}

/// The number of observations after one more.
pub open spec fn count_after(count: u32) -> u32 {
    if count < MAX_OBSERVATIONS {
        (count + 1) as u32
    } else {
        MAX_OBSERVATIONS
    }
}

/// Slots that were never filled.
pub open spec fn empty_slots() -> Seq<Option<PriceObservation>> {
    Seq::new(MAX_OBSERVATIONS as nat, |i: int| None)
}

/// An observation in the next slot of a buffer becomes its newest, and that of a full buffer takes
/// the place of the oldest.
pub proof fn lemma_next_slot_filled(
    slots: Seq<Option<PriceObservation>>,
    count: u32,
    next: u32,
    observation: PriceObservation,
)
    requires
        is_buffer(slots, count, next),
    ensures
        is_buffer(
            slots.update(next as int, Some(observation)),
            count_after(count),
            slot_after(next),
        ),
        buffered(
            slots.update(next as int, Some(observation)),
            count_after(count),
            slot_after(next),
        ) == last_of(
            buffered(slots, count, next).push(observation),
            MAX_OBSERVATIONS as int,
        ),
{
    let filled = slots.update(next as int, Some(observation));
    let n = count_after(count);
    let after = slot_after(next);
    assert forall|k: int| 0 <= k < n - 1 implies #[trigger] slot_of(n, after, k) == slot_of(
        count,
        next,
        k + count + 1 - n,
    ) && slot_of(n, after, k) != next by {}
    assert(slot_of(n, after, n - 1) == next);
    assert forall|k: int| 0 <= k < n implies filled[#[trigger] slot_of(n, after, k)] is Some by {}
    assert(buffered(filled, n, after) =~= last_of(
        buffered(slots, count, next).push(observation),
        MAX_OBSERVATIONS as int,
    ));
}

/// A circular buffer of observations. What it stands for is the sequence of them, from the oldest to
/// the newest; where they stand is told by its slots and its next slot.
pub struct ObservationRing {
    slots: Vec<Option<PriceObservation>>,
    count: u32,
    next: u32,
}

impl View for ObservationRing {
    type V = Seq<PriceObservation>;

    closed spec fn view(&self) -> Seq<PriceObservation> {
        buffered(self.slots@, self.count, self.next)
    }
}

impl ObservationRing {
    #[verifier::type_invariant]
    spec fn well_formed(self) -> bool {
        is_buffer(self.slots@, self.count, self.next)
    }

    /// The slots of the buffer.
    pub closed spec fn spec_slots(self) -> Seq<Option<PriceObservation>> {
        self.slots@
    }

    /// The number of observations.
    pub closed spec fn spec_count(self) -> u32 {
        self.count
    }

    /// The slot to be filled next.
    pub closed spec fn spec_next(self) -> u32 {
        self.next
    }

    /// A buffer without observations.
    pub fn new() -> (r: Self)
        ensures
            r@ == Seq::<PriceObservation>::empty(),
            r.spec_slots() == empty_slots(),
            r.spec_count() == 0,
            r.spec_next() == 0,
    {
        let mut slots: Vec<Option<PriceObservation>> = Vec::new();
        let mut i: u32 = 0;
        while i < MAX_OBSERVATIONS
            invariant
                i <= MAX_OBSERVATIONS,
                slots@ =~= empty_slots().take(i as int),
            decreases MAX_OBSERVATIONS - i,
        {
            slots.push(None);
            i = i + 1;
        }
        assert(slots@ =~= empty_slots());
        let r = ObservationRing { slots, count: 0, next: 0 };
        assert(r@ =~= Seq::empty());
        r
    }

    /// The buffer with the given slots, where they make one up.
    pub fn from_parts(slots: Vec<Option<PriceObservation>>, count: u32, next: u32) -> (r: Option<
        Self,
    >)
        ensures
            match r {
                Some(ring) => is_buffer(slots@, count, next) && ring@ == buffered(
                    slots@,
                    count,
                    next,
                ) && ring.spec_slots() == slots@ && ring.spec_count() == count && ring.spec_next()
                    == next,
                None => !is_buffer(slots@, count, next),
            },
    {
        if slots.len() != MAX_OBSERVATIONS as usize || count > MAX_OBSERVATIONS || next
            >= MAX_OBSERVATIONS {
            return None;
        }
        let mut k: u32 = 0;
        while k < count
            invariant
                k <= count <= MAX_OBSERVATIONS,
                next < MAX_OBSERVATIONS,
                slots@.len() == MAX_OBSERVATIONS,
                forall|j: int| 0 <= j < k ==> slots@[#[trigger] slot_of(count, next, j)] is Some,
            decreases count - k,
        {
            let i: u32 = (next + MAX_OBSERVATIONS - count + k) % MAX_OBSERVATIONS;
            assert(i == slot_of(count, next, k as int));
            if slots[i as usize].is_none() {
                return None;
            }
            k = k + 1;
        }
        Some(ObservationRing { slots, count, next })
    }

    /// What is in a slot.
    pub fn slot(&self, i: u32) -> (r: Option<PriceObservation>)
        requires
            i < MAX_OBSERVATIONS,
        ensures
            r == self.spec_slots()[i as int],
    {
        proof {
            use_type_invariant(self);
        }
        self.slots[i as usize]
    }

    /// The number of observations.
    pub fn len(&self) -> (r: u32)
        ensures
            r == self@.len(),
            r == self.spec_count(),
            r <= MAX_OBSERVATIONS,
    {
        proof {
            use_type_invariant(self);
        }
        self.count
    }

    /// The slot to be filled next.
    pub fn next_slot(&self) -> (r: u32)
        ensures
            r == self.spec_next(),
            r < MAX_OBSERVATIONS,
    {
        proof {
            use_type_invariant(self);
        }
        self.next
    }

    /// The newest observation.
    pub fn latest(&self) -> (r: Option<PriceObservation>)
        ensures
            r == (if self@.len() == 0 {
                None
            } else {
                Some(self@.last())
            }),
    {
        proof {
            use_type_invariant(self);
        }
        if self.count == 0 {
            return None;
        }
        let i: u32 = (self.next + MAX_OBSERVATIONS - 1) % MAX_OBSERVATIONS;
        assert(i == slot_of(self.count, self.next, self.count - 1));
        self.slots[i as usize]
    }

    /// The newest `n` observations, from the oldest to the newest, or all of them where there are
    /// fewer.
    pub fn recent(&self, n: u32) -> (r: Vec<PriceObservation>)
        ensures
            r@ == last_of(self@, n as int),
            r@.len() <= MAX_OBSERVATIONS,
    {
        proof {
            use_type_invariant(self);
        }
        let window: u32 = if n < self.count {
            n
        } else {
            self.count
        };
        let start: u32 = (self.next + MAX_OBSERVATIONS - window) % MAX_OBSERVATIONS;
        let mut out: Vec<PriceObservation> = Vec::new();
        let mut k: u32 = 0;
        while k < window
            invariant
                k <= window <= self.count <= MAX_OBSERVATIONS,
                is_buffer(self.slots@, self.count, self.next),
                start == (self.next + MAX_OBSERVATIONS - window) % (MAX_OBSERVATIONS as int),
                out@ =~= self@.subrange(self.count - window, self.count - window + k),
            decreases window - k,
        {
            let i: u32 = (start + k) % MAX_OBSERVATIONS;
            proof {
                lemma_slot_in_window(self.count, self.next, window, k);
            }
            assert(self.slots@[slot_of(self.count, self.next, self.count - window + k)] is Some);
            if let Some(observation) = self.slots[i as usize] {
                assert(self@[self.count - window + k] == observation);
                out.push(observation);
            }
            k = k + 1;
        }
        assert(out@ =~= last_of(self@, n as int));
        out
    }

    /// Gives up all observations and starts over at the first slot. What the slots hold stays there
    /// until they are filled again.
    pub fn restart(&mut self)
        ensures
            final(self)@ == Seq::<PriceObservation>::empty(),
            final(self).spec_slots() == old(self).spec_slots(),
            final(self).spec_count() == 0,
            final(self).spec_next() == 0,
    {
        proof {
            use_type_invariant(&*self);
        }
        self.count = 0;
        self.next = 0;
        assert(self@ =~= Seq::empty());
    }

    /// Adds an observation in the next slot. A full buffer gives up its oldest one.
    pub fn push(&mut self, observation: PriceObservation)
        ensures
            final(self)@ == last_of(old(self)@.push(observation), MAX_OBSERVATIONS as int),
            final(self).spec_slots() == old(self).spec_slots().update(
                old(self).spec_next() as int,
                Some(observation),
            ),
            final(self).spec_next() == slot_after(old(self).spec_next()),
            final(self).spec_count() == count_after(old(self).spec_count()),
    {
        proof {
            use_type_invariant(&*self);
        }
        let mut slots: Vec<Option<PriceObservation>> = Vec::new();
        let mut i: u32 = 0;
        while i < MAX_OBSERVATIONS
            invariant
                i <= MAX_OBSERVATIONS,
                self.slots@.len() == MAX_OBSERVATIONS,
                slots@ =~= self.slots@.take(i as int),
            decreases MAX_OBSERVATIONS - i,
        {
            slots.push(self.slots[i as usize]);
            i = i + 1;
        }
        slots.set(self.next as usize, Some(observation));
        let count: u32 = if self.count + 1 < MAX_OBSERVATIONS {
            self.count + 1
        } else {
            MAX_OBSERVATIONS
        };
        let next: u32 = (self.next + 1) % MAX_OBSERVATIONS;
        proof {
            assert(slots@ =~= self.slots@.update(self.next as int, Some(observation)));
            lemma_next_slot_filled(self.slots@, self.count, self.next, observation);
        }
        *self = ObservationRing { slots, count, next };
    }
}

/// The last items of a sequence are as many as asked for, or as there are, in their order.
pub proof fn law_what_the_last_items_are<T>(s: Seq<T>, n: int, k: int)
    requires
        n >= 0,
    ensures
        last_of(s, n).len() == (if s.len() <= n {
            s.len() as int
        } else {
            n
        }),
        0 <= k < last_of(s, n).len() ==> last_of(s, n)[k] == s[s.len() - last_of(s, n).len() + k],
{
}

/// A buffer has 20 slots, holds no more observations than that, and each of them stands before the next
/// slot, the newest directly before it.
pub proof fn law_where_observations_stand(
    slots: Seq<Option<PriceObservation>>,
    count: u32,
    next: u32,
    k: int,
)
    ensures
        is_buffer(slots, count, next) <==> slots.len() == 20 && count <= 20 && next < 20 && forall|
            age: int,
        |
            1 <= age <= count ==> slots[#[trigger] slot_before(next, age)] is Some,
        buffered(slots, count, next).len() == count,
        0 <= k < count <= 20 && next < 20 ==> buffered(slots, count, next)[k]
            == slots[slot_before(next, count - k)]->0,
        empty_slots().len() == 20,
        0 <= k < 20 ==> empty_slots()[k] is None,
{
    assert forall|c: u32, j: int| c <= 20 && next < 20 && 0 <= j < c implies slot_of(c, next, j)
        == slot_before(next, c - j) by {}
    if slots.len() == 20 && count <= 20 && next < 20 && forall|age: int|
        1 <= age <= count ==> slots[#[trigger] slot_before(next, age)] is Some {
        assert forall|j: int| 0 <= j < count implies slots[#[trigger] slot_of(
            count,
            next,
            j,
        )] is Some by {
            assert(slots[slot_before(next, count - j)] is Some);
        }
    }
    if is_buffer(slots, count, next) {
        assert forall|age: int| 1 <= age <= count implies slots[#[trigger] slot_before(
            next,
            age,
        )] is Some by {
            assert(slots[slot_of(count, next, count - age)] is Some);
        }
    }
}

/// The slot that lies `age` slots before another, where the first follows the last.
pub open spec fn slot_before(next: u32, age: int) -> int {
    if age <= next {
        next - age
    } else {
        next - age + 20
    }
}

/// The next slot goes round the 20 slots, and the count grows up to them.
pub proof fn law_slots_go_round(next: u32, count: u32)
    requires
        next < 20,
        count <= 20,
    ensures
        next < 19 ==> slot_after(next) == next + 1,
        next == 19 ==> slot_after(next) == 0,
        count < 20 ==> count_after(count) == count + 1,
        count == 20 ==> count_after(count) == 20,
        MAX_OBSERVATIONS == 20,
{
}

} // verus!
