//! The synchronized resource slot: an optionally-empty container that owns a
//! native engine object on behalf of a handle.
//!
//! Three resource kinds (repository, open file, version reader) share this
//! shape.  `take` removes the object exactly once — after that it is
//! permanently absent, every later operation observes absence and fails
//! with a closed-class error, and taking again is a harmless no-op, which
//! is what makes teardown idempotent.  Mutual exclusion around a slot is
//! the embedding's duty (the dispatch layer serializes access); the slot
//! itself carries the emptiness discipline, which is what the adapter
//! methods' contracts are stated over.

use vstd::prelude::*;

verus! {

/// A container holding an optional native object; emptied exactly once by
/// `take`, observed by every operation.
pub struct Slot<T> {
    contents: Option<T>,
}

impl<T> Slot<T> {
    /// The contained object, absent once the slot is closed.
    pub closed spec fn spec_contents(&self) -> Option<T> {
        self.contents
    }

    /// An open slot still holds its object.
    pub open spec fn is_open(&self) -> bool {
        self.spec_contents() is Some
    }

    /// The slot as `close` leaves it.
    pub closed spec fn spec_close(self) -> Slot<T> {
        Slot { contents: None }
    }

    /// Places a freshly transferred object into a new slot.
    pub fn new(obj: T) -> (s: Self)
        ensures
            s.spec_contents() == Some(obj),
    {
        Slot { contents: Some(obj) }
    }

    /// Removes and returns the contained object, exactly once: the slot is
    /// left permanently empty, and taking from an emptied slot yields
    /// nothing.  Never fails; closing an already-closed slot is a no-op.
    pub fn take(&mut self) -> (t: Option<T>)
        ensures
            *final(self) == old(self).spec_close(),
            !final(self).is_open(),
            t == old(self).spec_contents(),
    {
        self.contents.take()
    }

    /// Whether the slot still holds its object.
    pub fn is_open_ex(&self) -> (b: bool)
        ensures
            b == self.is_open(),
    {
        self.contents.is_some()
    }

    /// Shared access to the contained object.
    pub fn get(&self) -> (r: Option<&T>)
        ensures
            match r {
                Some(v) => self.spec_contents() == Some(*v),
                None => !self.is_open(),
            },
    {
        self.contents.as_ref()
    }

    /// Exclusive access to the slot's contents, for mutating engine calls.
    pub fn get_mut(&mut self) -> (r: &mut Option<T>)
        ensures
            *r == old(self).spec_contents(),
            final(self).spec_contents() == *final(r),
    {
        &mut self.contents
    }
}

/// Teardown is idempotent: closing an already-closed slot changes nothing,
/// and in particular never fails.
pub proof fn lemma_close_idempotent<T>(s: Slot<T>)
    ensures
        s.spec_close().spec_close() == s.spec_close(),
        !s.spec_close().is_open(),
{
}

} // verus!
