//! A bump arena over one borrowed region of samples.
//!
//! The arena cuts buffers off the front of its region, once each, and never
//! takes one back. A buffer that has been handed out belongs to its holder
//! for the rest of the region's lifetime.
use vstd::prelude::*;

verus! {

/// Bytes set aside for sample buffers.
pub const MEMORY_BYTES: usize = 524288;

/// The same amount in four-byte sample units.
pub const MEMORY_SIZE: usize = 131072;

/// Number of sample units in the region reserved for the arena.
pub fn size() -> (n: usize)
    ensures
        n == MEMORY_SIZE,
        n * 4 == MEMORY_BYTES,
{
    MEMORY_SIZE
}

/// The arena as a mathematical value: how many units it started with and how
/// many it has handed out.
pub ghost struct ArenaState {
    pub capacity: nat,
    pub used: nat,
}

/// Sum of a list of buffer lengths.
pub open spec fn total(lens: Seq<nat>) -> nat
    decreases lens.len(),
{
    if lens.len() == 0 {
        0
    } else {
        total(lens.drop_last()) + lens.last()
    }
}

/// The half-open range of units `[start, end)` holds `unit`.
pub open spec fn range_holds(range: (nat, nat), unit: nat) -> bool {
    range.0 <= unit < range.1
}

impl ArenaState {
    /// The cursor never passes the end of the region.
    pub open spec fn wf(self) -> bool {
        self.used <= self.capacity
    }

    /// Units not yet handed out.
    pub open spec fn remaining(self) -> nat {
        (self.capacity - self.used) as nat
    }

    /// The arena after a request for `len` units, or `None` where fewer are
    /// left.
    pub open spec fn allocate(self, len: nat) -> Option<ArenaState> {
        if len <= self.remaining() {
            Some(ArenaState { capacity: self.capacity, used: self.used + len })
        } else {
            None
        }
    }

    /// The units that a request for `len` units is served with.
    pub open spec fn range(self, len: nat) -> (nat, nat) {
        (self.used, self.used + len)
    }

    /// The arena after each of `lens` has been requested in turn, or `None`
    /// where one of the requests fails.
    pub open spec fn allocate_all(self, lens: Seq<nat>) -> Option<ArenaState>
        decreases lens.len(),
    {
        if lens.len() == 0 {
            Some(self)
        } else {
            match self.allocate_all(lens.drop_last()) {
                Some(s) => s.allocate(lens.last()),
                None => None,
            }
        }
    }
}

/// Bump arena over a region of `T`. Every buffer it hands out is filled with
/// the value given at construction.
pub struct Arena<'a, T> {
    rest: &'a mut [T],
    fill: T,
    capacity: usize,
}

impl<'a, T: Copy> View for Arena<'a, T> {
    type V = ArenaState;

    closed spec fn view(&self) -> ArenaState {
        ArenaState {
            capacity: self.capacity as nat,
            used: (self.capacity - self.rest@.len()) as nat,
        }
    }
}

impl<'a, T: Copy> Arena<'a, T> {
    /// The fields agree with the view.
    pub closed spec fn consistent(&self) -> bool {
        self.rest@.len() <= self.capacity
    }

    /// The invariant of the arena: what is left fits the capacity.
    pub open spec fn wf(&self) -> bool {
        self@.wf() && self.consistent()
    }

    /// The value that fresh buffers are filled with.
    pub closed spec fn fill(&self) -> T {
        self.fill
    }

    /// An arena over the whole of `region`, with nothing handed out.
    pub fn new(region: &'a mut [T], fill: T) -> (arena: Self)
        ensures
            arena.wf(),
            arena@ == (ArenaState { capacity: old(region)@.len(), used: 0 }),
            arena.fill() == fill,
    {
        let capacity = region.len();
        Arena { rest: region, fill, capacity }
    }

    /// Units the arena started with.
    pub fn capacity(&self) -> (n: usize)
        requires
            self.wf(),
        ensures
            n == self@.capacity,
    {
        self.capacity
    }

    /// Units handed out so far.
    pub fn used(&self) -> (n: usize)
        requires
            self.wf(),
        ensures
            n == self@.used,
    {
        self.capacity - self.rest.len()
    }

    /// Units still free.
    pub fn remaining(&self) -> (n: usize)
        requires
            self.wf(),
        ensures
            n == self@.remaining(),
    {
        self.rest.len()
    }

    /// Hands out the next `len` units as a buffer filled with the arena's fill
    /// value, or `None`, leaving the arena as it was, where fewer than `len`
    /// units are left.
    pub fn allocate_buffer(&mut self, len: usize) -> (buffer: Option<&'a mut [T]>)
        requires
            old(self).wf(),
        ensures
            final(self).wf(),
            final(self).fill() == old(self).fill(),
            buffer is Some <==> len <= old(self)@.remaining(),
            buffer is Some ==> Some(final(self)@) == old(self)@.allocate(len as nat),
            buffer is Some ==> buffer.unwrap()@ == Seq::new(len as nat, |i: int| old(self).fill()),
            buffer is None ==> final(self)@ == old(self)@,
    {
        if len > self.rest.len() {
            return None;
        }
        let mut rest: &'a mut [T] = &mut [];
        core::mem::swap(&mut rest, &mut self.rest);
        let (head, tail) = rest.split_at_mut(len);
        self.rest = tail;
        let fill = self.fill;
        let mut i: usize = 0;
        while i < len
            invariant
                i <= len,
                head@.len() == len,
                forall|j: int| 0 <= j < i ==> head@[j] == fill,
            decreases len - i,
        {
            head[i] = fill;
            i += 1;
        }
        assert(head@ =~= Seq::new(len as nat, |i: int| fill));
        Some(head)
    }
}

proof fn lemma_allocate_all_accounts(s: ArenaState, lens: Seq<nat>)
    requires
        s.wf(),
    ensures
        s.allocate_all(lens) is Some <==> total(lens) <= s.remaining(),
        s.allocate_all(lens) is Some ==> s.allocate_all(lens).unwrap() == (ArenaState {
            capacity: s.capacity,
            used: s.used + total(lens),
        }),
    decreases lens.len(),
{
    if lens.len() > 0 {
        lemma_allocate_all_accounts(s, lens.drop_last());
    }
}

/// Requests that add up to exactly what is left all succeed, in whatever way
/// the amount is split, and leave the arena full: a request for one more unit
/// then fails.
pub proof fn lemma_exact_split_succeeds(s: ArenaState, lens: Seq<nat>)
    requires
        s.wf(),
        total(lens) == s.remaining(),
    ensures
        s.allocate_all(lens) is Some,
        s.allocate_all(lens).unwrap().wf(),
        s.allocate_all(lens).unwrap().remaining() == 0,
        s.allocate_all(lens).unwrap().allocate(1) is None,
{
    lemma_allocate_all_accounts(s, lens);
}

/// A run of requests succeeds exactly when their sum fits what is left, and
/// then the cursor has moved by that sum.
pub proof fn lemma_requests_succeed_iff_they_fit(s: ArenaState, lens: Seq<nat>)
    requires
        s.wf(),
    ensures
        s.allocate_all(lens) is Some <==> total(lens) <= s.remaining(),
        s.allocate_all(lens) is Some ==> s.allocate_all(lens).unwrap().wf()
            && s.allocate_all(lens).unwrap().used == s.used + total(lens)
            && s.allocate_all(lens).unwrap().capacity == s.capacity,
{
    lemma_allocate_all_accounts(s, lens);
}

/// Two successive allocations are served with ranges that lie inside the
/// region and share no unit.
pub proof fn lemma_successive_allocations_disjoint(s: ArenaState, first: nat, second: nat)
    requires
        s.wf(),
        s.allocate(first) is Some,
        s.allocate(first).unwrap().allocate(second) is Some,
    ensures
        s.range(first).1 <= s.allocate(first).unwrap().range(second).0,
        s.allocate(first).unwrap().range(second).1 <= s.capacity,
        forall|unit: nat|
            !(#[trigger] range_holds(s.range(first), unit) && range_holds(
                s.allocate(first).unwrap().range(second),
                unit,
            )),
{
}

} // verus!
