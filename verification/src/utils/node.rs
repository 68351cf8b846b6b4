use vstd::prelude::*;

verus! {

/// Link to the node that follows, if any.
pub type NextNode<T> = Option<Box<Node<T>>>;

/// One cell of a singly linked chain: a value and the rest of the chain.
pub struct Node<T> {
    pub value: T,
    pub next: NextNode<T>,
}

/// The values reachable from a link, nearest first; empty for a missing link.
pub open spec fn chain_values<T>(link: NextNode<T>) -> Seq<T>
    decreases link,
{
    match link {
        None => Seq::empty(),
        Some(node) => seq![node.value] + chain_values(node.next),
    }
}

impl<T> Node<T> {
    /// The values held by this node and by every node after it, this node's first.
    pub open spec fn values(self) -> Seq<T> {
        seq![self.value] + chain_values(self.next)
    }

    /// A node that holds `value` and has no successor.
    pub fn new(value: T) -> (node: Self)
        ensures
            node.value == value,
            node.next is None,
    {
        Node { value, next: None }
    }

    /// Detaches and returns the rest of the chain, leaving this node alone.
    pub fn get_next(&mut self) -> (rest: Option<Box<Node<T>>>)
        ensures
            rest == old(self).next,
            final(self).next is None,
            final(self).value == old(self).value,
    {
        self.next.take()
    }

    /// Replaces the rest of the chain by `next`.
    pub fn set_next(&mut self, next: Option<Box<Node<T>>>)
        ensures
            final(self).next == next,
            final(self).value == old(self).value,
    {
        self.next = next;
    }
}

} // verus!
