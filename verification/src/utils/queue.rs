use vstd::prelude::*;

verus! {

/// A first-in, first-out queue that also allows access by position.
#[derive(Debug)]
pub struct Queue<T> {
    elements: Vec<T>,
}

impl<T> View for Queue<T> {
    type V = Seq<T>;

    /// The queued values, the one that has waited longest first.
    closed spec fn view(&self) -> Seq<T> {
        self.elements@
    }
}

impl<T> Queue<T> {
    /// An empty queue.
    pub fn new() -> (queue: Self)
        ensures
            queue@ == Seq::<T>::empty(),
    {
        Queue { elements: Vec::new() }
    }

    /// Adds `value` at the back.
    pub fn push(&mut self, value: T)
        ensures
            final(self)@ == old(self)@.push(value),
    {
        self.elements.push(value);
    }

    /// Removes and returns the value at the front, if there is one.
    pub fn pop(&mut self) -> (value: Option<T>)
        ensures
            old(self)@.len() == 0 ==> value is None && final(self)@ == old(self)@,
            old(self)@.len() > 0 ==> value == Some(old(self)@[0]) && final(self)@ == old(
                self,
            )@.skip(1),
    {
        if self.elements.is_empty() {
            None
        } else {
            let front = self.elements.remove(0);
            assert(self.elements@ =~= old(self)@.skip(1));
            Some(front)
        }
    }

    /// The value at the front, if there is one.
    pub fn peek(&self) -> (front: Option<&T>)
        ensures
            self@.len() == 0 ==> front is None,
            self@.len() > 0 ==> front == Some(&self@[0]),
    {
        if self.elements.len() > 0 {
            Some(&self.elements[0])
        } else {
            None
        }
    }

    /// Whether the queue holds no value.
    pub fn is_empty(&self) -> (empty: bool)
        ensures
            empty == (self@.len() == 0),
    {
        self.elements.is_empty()
    }

    /// How many values the queue holds.
    pub fn len(&self) -> (len: usize)
        ensures
            len == self@.len(),
    {
        self.elements.len()
    }

    /// The value at position `index`, counted from the front, if there is one.
    pub fn get(&self, index: usize) -> (value: Option<&T>)
        ensures
            index >= self@.len() ==> value is None,
            index < self@.len() ==> value == Some(&self@[index as int]),
    {
        if index < self.elements.len() {
            Some(&self.elements[index])
        } else {
            None
        }
    }

    /// Replaces the value at position `index`.
    pub fn set(&mut self, index: usize, value: T)
        requires
            index < old(self)@.len(),
        ensures
            final(self)@ == old(self)@.update(index as int, value),
    {
        self.elements[index] = value;
    }
}

} // verus!
