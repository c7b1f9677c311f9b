//! The opaque-handle transfer registry.
//!
//! A freshly created engine object must cross the boundary as a number and be
//! reconstructed into an owning wrapper exactly once.  Instead of encoding a
//! raw address, the registry keeps the object in a generation-checked arena
//! slot and hands out `generation * 2^32 + index` as the handle: a handle
//! that was never issued, was already claimed, or belongs to an earlier
//! occupant of its slot is rejected without touching any object, and every
//! issued handle lies strictly below `2^53`, the exactly-representable
//! integer range of a double-precision float, so the number round-trips
//! losslessly through the caller's numeric representation.

use vstd::prelude::*;

verus! {

/// Slots per generation step: handle = generation * SLOT_SPAN + index.
pub const SLOT_SPAN: u64 = 0x1_0000_0000;

/// Exclusive bound on slot generations, keeping every handle below 2^53.
pub const GEN_LIMIT: u64 = 0x20_0000;

/// Exclusive bound on issued handles: 2^53.
pub const HANDLE_LIMIT: u64 = 0x20_0000_0000_0000;

/// The slot index a handle refers to.
pub open spec fn handle_index(h: u64) -> int {
    h as int % (SLOT_SPAN as int)
}

/// The slot generation a handle was issued under.
pub open spec fn handle_gen(h: u64) -> int {
    h as int / (SLOT_SPAN as int)
}

/// The number issued for a slot index under a generation.
pub open spec fn spec_handle(gen: int, idx: int) -> int {
    gen * (SLOT_SPAN as int) + idx
}

/// Issued handles decode losslessly back to their generation and index.
pub proof fn lemma_handle_roundtrip(gen: int, idx: int)
    requires
        0 <= gen,
        0 <= idx < SLOT_SPAN as int,
    ensures
        spec_handle(gen, idx) % (SLOT_SPAN as int) == idx,
        spec_handle(gen, idx) / (SLOT_SPAN as int) == gen,
{
    let s = SLOT_SPAN as int;
    assert((gen * s + idx) % s == idx && (gen * s + idx) / s == gen) by (nonlinear_arith)
        requires
            0 <= gen,
            0 <= idx < s,
            s == SLOT_SPAN as int,
    ;
}

struct HandleEntry<T> {
    generation: u64,
    value: Option<T>,
}

/// The arena of generation-checked slots.
pub struct HandleTable<T> {
    entries: Vec<HandleEntry<T>>,
}

impl<T> HandleTable<T> {
    /// Validity: the arena never outgrows the index space, and generations
    /// stay below their bound.
    pub closed spec fn wf(&self) -> bool {
        &&& self.entries@.len() <= SLOT_SPAN as int
        &&& forall|i: int|
            0 <= i < self.entries@.len() ==> (#[trigger] self.entries@[i].generation) < GEN_LIMIT
    }

    /// Whether a handle currently refers to a deposited object: its index
    /// names a slot, the slot is on the handle's generation, and the slot
    /// still holds its object.
    pub closed spec fn live(&self, h: u64) -> bool {
        &&& handle_index(h) < self.entries@.len()
        &&& self.entries@[handle_index(h)].generation as int == handle_gen(h)
        &&& self.entries@[handle_index(h)].value is Some
    }

    /// The object a live handle refers to.
    pub closed spec fn value_at(&self, h: u64) -> T {
        self.entries@[handle_index(h)].value->0
    }

    /// The arena can issue no further handle: every slot index is taken,
    /// and no slot is both empty and below the generation bound.
    pub closed spec fn exhausted(&self) -> bool {
        &&& self.entries@.len() == SLOT_SPAN as int
        &&& forall|i: int|
            0 <= i < self.entries@.len() ==> !((#[trigger] self.entries@[i]).value is None
                && self.entries@[i].generation + 1 < GEN_LIMIT)
    }

    /// An empty registry: no handle is live, and handles can be issued.
    pub fn new() -> (t: Self)
        ensures
            t.wf(),
            !t.exhausted(),
            forall|h: u64| !(#[trigger] t.live(h)),
    {
        HandleTable { entries: Vec::new() }
    }

    /// Finds a reusable slot: one that is empty and whose generation can
    /// still be bumped.
    fn find_free(&self) -> (r: Option<usize>)
        requires
            self.wf(),
        ensures
            match r {
                Some(i) => {
                    &&& i < self.entries@.len()
                    &&& self.entries@[i as int].value is None
                    &&& self.entries@[i as int].generation + 1 < GEN_LIMIT
                },
                None => forall|i: int|
                    0 <= i < self.entries@.len() ==> !((#[trigger] self.entries@[i]).value
                        is None && self.entries@[i].generation + 1 < GEN_LIMIT),
            },
    {
        let mut i: usize = 0;
        while i < self.entries.len()
            invariant
                self.wf(),
                i <= self.entries@.len(),
                forall|j: int|
                    0 <= j < i ==> !((#[trigger] self.entries@[j]).value is None
                        && self.entries@[j].generation + 1 < GEN_LIMIT),
            decreases self.entries@.len() - i,
        {
            if self.entries[i].value.is_none() && self.entries[i].generation + 1 < GEN_LIMIT {
                return Some(i);
            }
            i = i + 1;
        }
        None
    }

    /// Deposits an object, issuing a fresh handle for it: the handle was not
    /// live before, is live now, lies below 2^53, and every other handle
    /// keeps its standing and its object.  A handle is owed whenever the
    /// arena is not exhausted: only an exhausted arena hands the object
    /// back, unchanged.
    pub fn deposit(&mut self, v: T) -> (r: Result<u64, T>)
        requires
            old(self).wf(),
        ensures
            final(self).wf(),
            match r {
                Ok(h) => {
                    &&& h < HANDLE_LIMIT
                    &&& !old(self).live(h)
                    &&& final(self).live(h)
                    &&& final(self).value_at(h) == v
                    &&& forall|h2: u64|
                        h2 != h ==> #[trigger] final(self).live(h2) == old(self).live(h2)
                    &&& forall|h2: u64|
                        h2 != h && old(self).live(h2) ==> #[trigger] final(self).value_at(h2)
                            == old(self).value_at(h2)
                },
                Err(given_back) => {
                    &&& given_back == v
                    &&& old(self).exhausted()
                    &&& forall|h2: u64|
                        #[trigger] final(self).live(h2) == old(self).live(h2)
                    &&& forall|h2: u64|
                        old(self).live(h2) ==> #[trigger] final(self).value_at(h2) == old(
                            self,
                        ).value_at(h2)
                },
            },
    {
        match self.find_free() {
            Some(i) => {
                let e = &mut self.entries[i];
                let g = e.generation + 1;
                e.generation = g;
                e.value = Some(v);
                let h = g * SLOT_SPAN + (i as u64);
                proof {
                    lemma_handle_roundtrip(g as int, i as int);
                    assert forall|h2: u64| h2 != h implies #[trigger] self.live(h2) == old(
                        self,
                    ).live(h2) by {
                        if handle_index(h2) == i as int {
                            vstd::arithmetic::div_mod::lemma_fundamental_div_mod(
                                h2 as int,
                                SLOT_SPAN as int,
                            );
                        }
                    }
                }
                Ok(h)
            },
            None => {
                if (self.entries.len() as u64) < SLOT_SPAN {
                    let i = self.entries.len();
                    self.entries.push(HandleEntry { generation: 0, value: Some(v) });
                    let h = i as u64;
                    proof {
                        lemma_handle_roundtrip(0, i as int);
                        assert forall|h2: u64| h2 != h implies #[trigger] self.live(h2) == old(
                            self,
                        ).live(h2) by {
                            if handle_index(h2) == i as int {
                                vstd::arithmetic::div_mod::lemma_fundamental_div_mod(
                                    h2 as int,
                                    SLOT_SPAN as int,
                                );
                            }
                        }
                    }
                    Ok(h)
                } else {
                    Err(v)
                }
            },
        }
    }

    /// Claims the object a handle refers to, exactly once: a live handle
    /// yields its object and goes dead; a dead handle yields nothing.  Every
    /// other handle keeps its standing and its object, so a handle can never
    /// be reconstructed twice.
    pub fn claim(&mut self, h: u64) -> (r: Option<T>)
        requires
            old(self).wf(),
        ensures
            final(self).wf(),
            old(self).live(h) ==> r == Some(old(self).value_at(h)),
            !old(self).live(h) ==> r is None,
            !final(self).live(h),
            forall|h2: u64| h2 != h ==> #[trigger] final(self).live(h2) == old(self).live(h2),
            forall|h2: u64|
                h2 != h && old(self).live(h2) ==> #[trigger] final(self).value_at(h2) == old(
                    self,
                ).value_at(h2),
    {
        let idx64 = h % SLOT_SPAN;
        let gen64 = h / SLOT_SPAN;
        let idx = idx64 as usize;
        if idx < self.entries.len() {
            if self.entries[idx].generation == gen64 {
                let e = &mut self.entries[idx];
                let taken = e.value.take();
                proof {
                    assert forall|h2: u64| h2 != h implies #[trigger] self.live(h2) == old(
                        self,
                    ).live(h2) by {
                        if handle_index(h2) == idx as int {
                            vstd::arithmetic::div_mod::lemma_fundamental_div_mod(
                                h2 as int,
                                SLOT_SPAN as int,
                            );
                            vstd::arithmetic::div_mod::lemma_fundamental_div_mod(
                                h as int,
                                SLOT_SPAN as int,
                            );
                        }
                    }
                }
                taken
            } else {
                None
            }
        } else {
            None
        }
    }

    /// Whether a handle currently refers to a deposited object.
    pub fn is_live(&self, h: u64) -> (b: bool)
        ensures
            b == self.live(h),
    {
        let idx64 = h % SLOT_SPAN;
        let gen64 = h / SLOT_SPAN;
        let idx = idx64 as usize;
        idx < self.entries.len() && self.entries[idx].generation == gen64
            && self.entries[idx].value.is_some()
    }
}

/// Every live handle lies in the exactly-representable integer range of a
/// double-precision float, so it survives the trip through the caller's
/// numeric representation unchanged.
pub proof fn lemma_live_handle_bounded<T>(t: &HandleTable<T>, h: u64)
    requires
        t.wf(),
        t.live(h),
    ensures
        h < HANDLE_LIMIT,
{
    let s = SLOT_SPAN as int;
    vstd::arithmetic::div_mod::lemma_fundamental_div_mod(h as int, s);
    assert(handle_gen(h) < GEN_LIMIT as int);
    assert(h as int == handle_gen(h) * s + handle_index(h));
    assert(handle_gen(h) * s <= (GEN_LIMIT as int - 1) * s) by (nonlinear_arith)
        requires
            handle_gen(h) < GEN_LIMIT as int,
            s > 0,
    ;
}

} // verus!
