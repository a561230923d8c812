//! A table that hands values over under integer handles.
//!
//! A handle is issued once and never again, and the value behind it can be
//! taken exactly once: whoever takes it owns it, and every later attempt finds
//! nothing. This is how a continuation crosses the trap boundary, and how a
//! request in flight is tied to the continuation that waits for its response.

use vstd::prelude::*;

verus! {

/// Values filed under the handles `0, 1, 2, ...` in the order of their arrival.
pub struct HandleTable<T> {
    slots: Vec<Option<T>>,
}

/// What the table described by `slots` holds under `handle`.
pub open spec fn lookup<T>(slots: Seq<Option<T>>, handle: int) -> Option<T> {
    if 0 <= handle < slots.len() {
        slots[handle]
    } else {
        None
    }
}

/// The table described by `slots` once whatever `handle` held has been taken.
pub open spec fn released<T>(slots: Seq<Option<T>>, handle: int) -> Seq<Option<T>> {
    if 0 <= handle < slots.len() {
        slots.update(handle, None)
    } else {
        slots
    }
}

impl<T> View for HandleTable<T> {
    type V = Seq<Option<T>>;

    /// One entry for each handle issued so far: the value that it still holds,
    /// or `None` once the value has been taken.
    closed spec fn view(&self) -> Seq<Option<T>> {
        self.slots@
    }
}

impl<T> HandleTable<T> {
    /// A table that has issued no handle.
    pub fn new() -> (table: HandleTable<T>)
        ensures
            table@ == Seq::<Option<T>>::empty(),
    {
        HandleTable { slots: Vec::new() }
    }

    /// The number of handles issued so far, which is also the next handle.
    pub fn issued(&self) -> (count: usize)
        ensures
            count == self@.len(),
    {
        self.slots.len()
    }

    /// Files `value` under a handle that was never issued before.
    pub fn insert(&mut self, value: T) -> (handle: usize)
        ensures
            handle == old(self)@.len(),
            final(self)@ == old(self)@.push(Some(value)),
    {
        let handle = self.slots.len();
        self.slots.push(Some(value));
        handle
    }

    /// The value filed under `handle`, left in place.
    pub fn get(&self, handle: usize) -> (value: Option<&T>)
        ensures
            match value {
                Some(found) => lookup(self@, handle as int) == Some(*found),
                None => lookup(self@, handle as int).is_none(),
            },
    {
        if handle < self.slots.len() {
            self.slots[handle].as_ref()
        } else {
            None
        }
    }

    /// Takes the value filed under `handle` out of the table. A handle that was
    /// never issued, or whose value has been taken already, yields `None` and
    /// leaves the table as it is.
    pub fn take(&mut self, handle: usize) -> (value: Option<T>)
        ensures
            value == lookup(old(self)@, handle as int),
            final(self)@ == released(old(self)@, handle as int),
    {
        if handle < self.slots.len() {
            let slot = &mut self.slots[handle];
            slot.take()
        } else {
            None
        }
    }
}

/// A value can be taken once only: after a handle has been released, the table
/// holds nothing under it.
pub proof fn lemma_taken_once<T>(slots: Seq<Option<T>>, handle: int)
    ensures
        lookup(released(slots, handle), handle).is_none(),
        released(released(slots, handle), handle) == released(slots, handle),
{
}

/// Releasing one handle leaves what the others hold untouched.
pub proof fn lemma_release_keeps_others<T>(slots: Seq<Option<T>>, handle: int, other: int)
    requires
        other != handle,
    ensures
        lookup(released(slots, handle), other) == lookup(slots, other),
{
}

/// The next handle is fresh: nothing was ever filed under it, and filing a
/// value leaves what the earlier handles hold untouched.
pub proof fn lemma_insert_is_fresh<T>(slots: Seq<Option<T>>, value: T, other: int)
    ensures
        lookup(slots, slots.len() as int).is_none(),
        lookup(slots.push(Some(value)), slots.len() as int) == Some(value),
        other != slots.len() ==> lookup(slots.push(Some(value)), other) == lookup(slots, other),
{
}

} // verus!
