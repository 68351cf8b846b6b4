use vstd::prelude::*;
use crate::utils::node::{chain_values, Node};

verus! {

/// A last-in, first-out stack kept as a linked chain of nodes.
pub struct Stack<T> {
    top: Option<Box<Node<T>>>,
    size: usize,
}

impl<T> View for Stack<T> {
    type V = Seq<T>;

    /// The stacked values, the most recently pushed first.
    closed spec fn view(&self) -> Seq<T> {
        chain_values(self.top)
    }
}

/// Mutable access to the value nearest to `link`; the chain keeps its length.
fn first_value_mut<T>(link: &mut Option<Box<Node<T>>>) -> (first: Option<&mut T>)
    ensures
        *old(link) is None ==> first is None && *final(link) == *old(link),
        *old(link) matches Some(node) ==> (first matches Some(value) && *value == node.value
            && chain_values(*final(link)) == chain_values(*old(link)).update(0, *final(value))),
    no_unwind
{
    match link {
        Some(node) => {
            let value = &mut node.value;
            proof {
                let after = Node { value: *final(value), next: old(link)->0.next };
                assert(chain_values(Some(Box::new(after))) =~= chain_values(*old(link)).update(
                    0,
                    *final(value),
                ));
            }
            Some(value)
        },
        None => None,
    }
}

impl<T> Stack<T> {
    /// While the chain has nodes, `size` is their number.
    #[verifier::type_invariant]
    spec fn counted(self) -> bool {
        self.top is Some ==> self.size == chain_values(self.top).len()
    }

    /// An empty stack.
    pub fn new() -> (stack: Self)
        ensures
            stack@ == Seq::<T>::empty(),
    {
        Stack { top: None, size: 0 }
    }

    /// Puts `value` on top.
    pub fn push(&mut self, value: T)
        requires
            old(self)@.len() < usize::MAX,
        ensures
            final(self)@ == seq![value] + old(self)@,
    {
        let below = self.size();
        let mut new_node = Box::new(Node::new(value));
        let mut chain: Option<Box<Node<T>>> = None;
        core::mem::swap(&mut self.top, &mut chain);
        new_node.set_next(chain);
        self.size = below + 1;
        self.top = Some(new_node);
    }

    /// Takes the top value off, if there is one.
    pub fn pop(&mut self) -> (value: Option<T>)
        ensures
            old(self)@.len() == 0 ==> value is None && final(self)@ == old(self)@,
            old(self)@.len() > 0 ==> value == Some(old(self)@[0]) && final(self)@ == old(
                self,
            )@.skip(1),
    {
        let held = self.size();
        let mut chain: Option<Box<Node<T>>> = None;
        core::mem::swap(&mut self.top, &mut chain);
        match chain {
            Some(mut top_node) => {
                let rest = top_node.get_next();
                assert(old(self)@.skip(1) =~= chain_values(rest));
                self.size = held - 1;
                self.top = rest;
                Some(top_node.value)
            },
            None => None,
        }
    }

    /// Mutable access to the top value, if there is one.
    pub fn top_mut(&mut self) -> (top: Option<&mut T>)
        ensures
            old(self)@.len() == 0 ==> top is None && final(self)@ == old(self)@,
            old(self)@.len() > 0 ==> (top matches Some(value) && *value == old(self)@[0]
                && final(self)@ == old(self)@.update(0, *final(value))),
    {
        proof {
            use_type_invariant(&*self);
        }
        first_value_mut(&mut self.top)
    }

    /// The top value, if there is one.
    pub fn top(&self) -> (top: Option<&T>)
        ensures
            self@.len() == 0 ==> top is None,
            self@.len() > 0 ==> top == Some(&self@[0]),
    {
        match &self.top {
            Some(node) => Some(&node.value),
            None => None,
        }
    }

    /// Whether the stack holds no value.
    pub fn is_empty(&self) -> (empty: bool)
        ensures
            empty == (self@.len() == 0),
    {
        self.top.is_none()
    }

    /// How many values the stack holds.
    pub fn size(&self) -> (size: usize)
        ensures
            size == self@.len(),
    {
        proof {
            use_type_invariant(self);
        }
        match &self.top {
            Some(_) => self.size,
            None => 0,
        }
    }
}

impl<T> Drop for Stack<T> {
    /// Unlinks the nodes one by one, so that a long chain is released without
    /// one nested call per node.
    fn drop(&mut self)
        opens_invariants none
        no_unwind
    {
        let mut current: Option<Box<Node<T>>> = None;
        core::mem::swap(&mut self.top, &mut current);
        loop
            decreases chain_values(current).len(),
        {
            match current {
                Some(mut node) => {
                    let mut rest: Option<Box<Node<T>>> = None;
                    core::mem::swap(&mut node.next, &mut rest);
                    current = rest;
                },
                None => {
                    break ;
                },
            }
        }
    }
}

} // verus!
