use vstd::prelude::*;

verus! {

/// A first-in, first-out queue.
pub struct Queue<T> {
    vec: Vec<T>,
}

impl<T> View for Queue<T> {
    type V = Seq<T>;

    /// The queued values, oldest first.
    closed spec fn view(&self) -> Seq<T> {
        self.vec@
    }
}

impl<T> Queue<T> {
    /// An empty queue.
    pub fn new() -> (queue: Queue<T>)
        ensures
            queue@ == Seq::<T>::empty(),
    {
        Queue { vec: Vec::new() }
    }

    /// Appends `value` behind everything already queued.
    pub fn push(&mut self, value: T)
        ensures
            final(self)@ == old(self)@.push(value),
    {
        self.vec.push(value);
    }

    /// Removes and returns the oldest value, or `None` when the queue is empty.
    pub fn pop(&mut self) -> (value: Option<T>)
        ensures
            old(self)@.len() == 0 ==> value.is_none() && final(self)@ == old(self)@,
            old(self)@.len() > 0 ==> value == Some(old(self)@[0]) && final(self)@ == old(
                self,
            )@.subrange(1, old(self)@.len() as int),
    {
        if self.vec.len() == 0 {
            None
        } else {
            Some(self.vec.remove(0))
        }
    }
}

} // verus!
