//! A singly linked list that owns its elements, used as a stack.

use crate::text::shows;
use std::fmt::Display;
use vstd::pervasive::cloned;
use vstd::prelude::*;
use vstd::string::StringExecFns;
use vstd::std_specs::cmp::PartialEqSpec;
use vstd::std_specs::cmp::PartialEqSpecImpl;

verus! {

/// A list of the elements `self@`, the front element first.
pub struct LinkedList<T> {
    head: Option<Box<Node<T>>>,
    size: usize,
}

/// One cell of a list: an element and the rest of the list.
pub struct Node<T> {
    value: T,
    next: Option<Box<Node<T>>>,
}

impl<T> Node<T> {
    /// The elements of the cells from `link` on, in order.
    pub closed spec fn chain(link: Option<Box<Node<T>>>) -> Seq<T>
        decreases link,
    {
        match link {
            None => Seq::empty(),
            Some(node) => seq![node.value] + Node::chain(node.next),
        }
    }

    /// A cell that holds `value` in front of the cells from `next` on.
    pub fn new(value: T, next: Option<Box<Node<T>>>) -> (node: Node<T>)
        ensures
            Node::chain(Some(Box::new(node))) == seq![value] + Node::chain(next),
    {
        Node { value: value, next: next }
    }
}

impl<T> View for LinkedList<T> {
    type V = Seq<T>;

    closed spec fn view(&self) -> Seq<T> {
        Node::chain(self.head)
    }
}

impl<T> LinkedList<T> {
    /// Whether the recorded size is the number of elements. Every list that
    /// this module hands out is well formed.
    pub closed spec fn wf(&self) -> bool {
        self.size == self@.len()
    }

    /// The empty list.
    pub fn new() -> (list: LinkedList<T>)
        ensures
            list.wf(),
            list@ == Seq::<T>::empty(),
    {
        LinkedList { head: None, size: 0 }
    }

    /// The number of elements.
    pub fn get_size(&self) -> (size: usize)
        requires
            self.wf(),
        ensures
            size == self@.len(),
    {
        self.size
    }

    /// Whether the list has no element.
    pub fn is_empty(&self) -> (empty: bool)
        requires
            self.wf(),
        ensures
            empty == (self@.len() == 0),
    {
        self.get_size() == 0
    }

    /// Puts `value` in front of the other elements.
    pub fn push_front(&mut self, value: T)
        requires
            old(self).wf(),
            old(self)@.len() < usize::MAX,
        ensures
            final(self).wf(),
            final(self)@ == seq![value] + old(self)@,
    {
        let new_node: Box<Node<T>> = Box::new(Node::new(value, self.head.take()));
        self.head = Some(new_node);
        self.size += 1;
    }

    /// Takes the front element off the list and returns it; `None` if the
    /// list is empty.
    pub fn pop_front(&mut self) -> (front: Option<T>)
        requires
            old(self).wf(),
        ensures
            final(self).wf(),
            old(self)@.len() == 0 ==> front is None && final(self)@ == old(self)@,
            old(self)@.len() > 0 ==> front == Some(old(self)@[0]) && final(self)@ == old(
                self,
            )@.drop_first(),
    {
        match self.head.take() {
            None => None,
            Some(boxed) => {
                let node: Node<T> = *boxed;
                assert(old(self)@ =~= seq![node.value] + Node::chain(node.next));
                assert((seq![node.value] + Node::chain(node.next)).drop_first() =~= Node::chain(
                    node.next,
                ));
                self.head = node.next;
                self.size -= 1;
                Some(node.value)
            },
        }
    }

    /// Takes the front element off the list and returns it, as
    /// [`LinkedList::pop_front`] does: walking a list to its end empties it.
    pub fn next(&mut self) -> (front: Option<T>)
        requires
            old(self).wf(),
        ensures
            final(self).wf(),
            old(self)@.len() == 0 ==> front is None && final(self)@ == old(self)@,
            old(self)@.len() > 0 ==> front == Some(old(self)@[0]) && final(self)@ == old(
                self,
            )@.drop_first(),
    {
        self.pop_front()
    }
}

/// The texts `parts` written one after the other, each with a blank before
/// it.
pub open spec fn spaced(parts: Seq<Seq<char>>) -> Seq<char>
    decreases parts.len(),
{
    if parts.len() == 0 {
        Seq::empty()
    } else {
        spaced(parts.drop_last()) + " "@ + parts.last()
    }
}

impl<T: Display> LinkedList<T> {
    /// Whether `text` shows the list: each element as it shows itself, in
    /// order, with a blank before each.
    pub open spec fn shown_as(&self, text: Seq<char>) -> bool {
        exists|parts: Seq<Seq<char>>|
            {
                &&& parts.len() == self@.len()
                &&& forall|i: int| 0 <= i < parts.len() ==> shows(self@[i], #[trigger] parts[i])
                &&& text == spaced(parts)
            }
    }

    /// The list as text; see [`LinkedList::shown_as`].
    pub fn to_string(&self) -> (text: String)
        ensures
            self.shown_as(text@),
    {
        let mut current: &Option<Box<Node<T>>> = &self.head;
        let mut result = String::new();
        let ghost mut parts: Seq<Seq<char>> = Seq::empty();
        assert(self@.skip(0) =~= self@);
        loop
            invariant_except_break
                parts.len() <= self@.len(),
                Node::chain(*current) == self@.skip(parts.len() as int),
                forall|i: int| 0 <= i < parts.len() ==> shows(self@[i], #[trigger] parts[i]),
                result@ == spaced(parts),
            ensures
                parts.len() == self@.len(),
                forall|i: int| 0 <= i < parts.len() ==> shows(self@[i], #[trigger] parts[i]),
                result@ == spaced(parts),
            decreases Node::chain(*current).len(),
        {
            match current {
                Some(node) => {
                    assert(Node::chain(*current) =~= seq![node.value] + Node::chain(node.next));
                    assert(self@.skip(parts.len() as int)[0] == node.value);
                    assert(Node::chain(node.next) =~= self@.skip(parts.len() as int + 1)) by {
                        assert(Node::chain(*current).drop_first() =~= Node::chain(node.next));
                        assert(self@.skip(parts.len() as int).drop_first() =~= self@.skip(
                            parts.len() as int + 1,
                        ));
                    }
                    let shown = node.value.to_string();
                    result.append(" ");
                    result.append(shown.as_str());
                    proof {
                        assert(shows(node.value, shown@));
                        let longer = parts.push(shown@);
                        assert(longer.drop_last() =~= parts);
                        parts = longer;
                    }
                    current = &node.next;
                },
                None => {
                    assert(self@.skip(parts.len() as int).len() == 0);
                    break ;
                },
            }
        }
        result
    }
}

impl<T: Clone> Clone for LinkedList<T> {
    /// A list of clones of the elements, in the same order.
    fn clone(&self) -> (copy: Self)
        ensures
            copy@.len() == self@.len(),
            forall|i: int| 0 <= i < self@.len() ==> cloned::<T>(self@[i], #[trigger] copy@[i]),
            self.wf() ==> copy.wf(),
    {
        let mut current: &Option<Box<Node<T>>> = &self.head;
        let mut values: Vec<T> = Vec::new();
        assert(self@.skip(0) =~= self@);
        loop
            invariant_except_break
                values@.len() <= self@.len(),
                Node::chain(*current) == self@.skip(values@.len() as int),
                forall|i: int|
                    0 <= i < values@.len() ==> cloned::<T>(self@[i], #[trigger] values@[i]),
            ensures
                values@.len() == self@.len(),
                forall|i: int|
                    0 <= i < values@.len() ==> cloned::<T>(self@[i], #[trigger] values@[i]),
            decreases Node::chain(*current).len(),
        {
            match current {
                Some(node) => {
                    assert(Node::chain(*current) =~= seq![node.value] + Node::chain(node.next));
                    assert(self@.skip(values@.len() as int)[0] == node.value);
                    assert(Node::chain(node.next) =~= self@.skip(values@.len() as int + 1)) by {
                        assert(Node::chain(*current).drop_first() =~= Node::chain(node.next));
                        assert(self@.skip(values@.len() as int).drop_first() =~= self@.skip(
                            values@.len() as int + 1,
                        ));
                    }
                    values.push(node.value.clone());
                    current = &node.next;
                },
                None => {
                    assert(self@.skip(values@.len() as int).len() == 0);
                    break ;
                },
            }
        }
        let ghost cloned_values = values@;
        let mut head: Option<Box<Node<T>>> = None;
        while values.len() > 0
            invariant
                values@.len() <= cloned_values.len(),
                values@ == cloned_values.take(values@.len() as int),
                Node::chain(head) == cloned_values.skip(values@.len() as int),
            decreases values@.len(),
        {
            let ghost rest = Node::chain(head);
            let value = values.pop().unwrap();
            assert(value == cloned_values[values@.len() as int]);
            head = Some(Box::new(Node::new(value, head)));
            assert(Node::chain(head) == seq![value] + rest);
            assert(Node::chain(head) =~= cloned_values.skip(values@.len() as int));
            assert(values@ =~= cloned_values.take(values@.len() as int));
        }
        assert(cloned_values.skip(0) =~= cloned_values);
        LinkedList { head, size: self.size }
    }
}

impl<T> Drop for LinkedList<T> {
    /// Frees the cells one after the other, so that a long list does not
    /// need a deep stack to be freed.
    fn drop(&mut self)
        opens_invariants none
        no_unwind
    {
        let mut current: Option<Box<Node<T>>> = None;
        std::mem::swap(&mut current, &mut self.head);
        loop
            decreases Node::chain(current).len(),
        {
            match current {
                Some(mut node) => {
                    assert(Node::chain(current) =~= seq![node.value] + Node::chain(node.next));
                    let mut rest: Option<Box<Node<T>>> = None;
                    std::mem::swap(&mut rest, &mut node.next);
                    current = rest;
                },
                None => {
                    break ;
                },
            }
        }
    }
}

impl<T: PartialEq> PartialEq for LinkedList<T> {
    /// Whether the two lists have the same length and equal elements at each
    /// place.
    fn eq(&self, other: &Self) -> (equal: bool) {
        let mut current: &Option<Box<Node<T>>> = &self.head;
        let mut current2: &Option<Box<Node<T>>> = &other.head;
        let ghost mut walked: int = 0;
        assert(self@.skip(0) =~= self@);
        assert(other@.skip(0) =~= other@);
        loop
            invariant
                0 <= walked <= self@.len(),
                walked <= other@.len(),
                Node::chain(*current) == self@.skip(walked),
                Node::chain(*current2) == other@.skip(walked),
                T::obeys_eq_spec() ==> forall|i: int|
                    0 <= i < walked ==> (#[trigger] self@[i]).eq_spec(&other@[i]),
            decreases Node::chain(*current).len(),
        {
            match (current, current2) {
                (Some(node), Some(node2)) => {
                    assert(Node::chain(*current) =~= seq![node.value] + Node::chain(node.next));
                    assert(Node::chain(*current2) =~= seq![node2.value] + Node::chain(node2.next));
                    assert(self@.skip(walked)[0] == node.value);
                    assert(other@.skip(walked)[0] == node2.value);
                    assert(Node::chain(*current).drop_first() =~= Node::chain(node.next));
                    assert(Node::chain(*current2).drop_first() =~= Node::chain(node2.next));
                    assert(self@.skip(walked).drop_first() =~= self@.skip(walked + 1));
                    assert(other@.skip(walked).drop_first() =~= other@.skip(walked + 1));
                    if !(node.value == node2.value) {
                        return false;
                    }
                    current = &node.next;
                    current2 = &node2.next;
                    proof {
                        walked = walked + 1;
                    }
                },
                (None, None) => {
                    assert(self@.skip(walked).len() == 0);
                    assert(other@.skip(walked).len() == 0);
                    return true;
                },
                (Some(node), None) => {
                    assert(Node::chain(*current) =~= seq![node.value] + Node::chain(node.next));
                    assert(other@.skip(walked).len() == 0);
                    return false;
                },
                (None, Some(node2)) => {
                    assert(Node::chain(*current2) =~= seq![node2.value] + Node::chain(node2.next));
                    assert(self@.skip(walked).len() == 0);
                    return false;
                },
            }
        }
    }
}

impl<T: PartialEq> PartialEqSpecImpl for LinkedList<T> {
    open spec fn obeys_eq_spec() -> bool {
        T::obeys_eq_spec()
    }

    open spec fn eq_spec(&self, other: &Self) -> bool {
        &&& self@.len() == other@.len()
        &&& forall|i: int| 0 <= i < self@.len() ==> (#[trigger] self@[i]).eq_spec(&other@[i])
    }
}

} // verus!
