//! A persistent, reference-counted, reverse singly-linked list.

use std::sync::Arc;
use vstd::prelude::*;

verus! {

/// One cell of the chain: a value and a shared handle to the cell appended
/// before it.
#[derive(Hash)]
struct Node<T> {
    prev: Option<Arc<Node<T>>>,
    value: T,
}

/// `Arc::clone` hands back a second handle to the same allocation; it never
/// copies or changes the node behind it.
#[verifier::external_body]
fn share<T>(handle: &Arc<Node<T>>) -> (shared: Arc<Node<T>>)
    ensures
        shared == *handle,
{
    Arc::clone(handle)
}

/// The values reachable from `node`, oldest first.
spec fn chain<T>(node: Option<Arc<Node<T>>>) -> Seq<T>
    decreases node,
{
    match node {
        None => Seq::empty(),
        Some(n) => chain(n.prev).push(n.value),
    }
}

/// A reverse singly-linked list.
///
/// Each node in the list is reference counted, so a list shares the nodes of
/// the list it was appended to. Appending and cloning are both O(1).
#[derive(Hash)]
pub struct List<T> {
    node: Option<Arc<Node<T>>>,
    length: usize,
}

impl<T> View for List<T> {
    type V = Seq<T>;

    /// The values of the list in the order in which they were appended.
    closed spec fn view(&self) -> Seq<T> {
        chain(self.node)
    }
}

impl<T> Clone for List<T> {
    /// A second handle to the same nodes: no value is copied.
    fn clone(&self) -> (list: Self)
        ensures
            list@ == self@,
    {
        proof {
            use_type_invariant(self);
        }
        let node = match &self.node {
            Some(node) => Some(share(node)),
            None => None,
        };
        Self { node, length: self.length }
    }
}

impl<T> List<T> {
    /// The stored length agrees with the number of nodes in the chain.
    #[verifier::type_invariant]
    spec fn wf(self) -> bool {
        self.length == chain(self.node).len()
    }

    /// A list that holds nothing.
    pub fn new() -> (list: Self)
        ensures
            list@ == Seq::<T>::empty(),
    {
        Self { node: None, length: 0 }
    }

    /// The number of values in the list.
    pub fn len(&self) -> (n: usize)
        ensures
            n == self@.len(),
    {
        proof {
            use_type_invariant(self);
        }
        self.length
    }

    /// Whether the list holds nothing.
    pub fn is_empty(&self) -> (b: bool)
        ensures
            b <==> self@.len() == 0,
    {
        proof {
            use_type_invariant(self);
        }
        self.length == 0
    }

    /// Returns a new list holding the values of `self` followed by `value`.
    /// The receiver is left as it was and shares its nodes with the result.
    pub fn append(&self, value: T) -> (list: Self)
        requires
            self@.len() < usize::MAX,
        ensures
            list@ == self@.push(value),
    {
        proof {
            use_type_invariant(self);
        }
        let prev = match &self.node {
            Some(node) => Some(share(node)),
            None => None,
        };
        Self { node: Some(Arc::new(Node { prev, value })), length: self.length + 1 }
    }

    /// Walks the list from the value appended last to the one appended first.
    pub fn iter(&self) -> (iter: Iter<'_, T>)
        ensures
            iter@ == self@.reverse(),
    {
        Iter::new(self)
    }
}

/// What a list holds once each of `values` has been appended in turn to a
/// list that held `start`.
pub open spec fn after_appends<T>(start: Seq<T>, values: Seq<T>) -> Seq<T>
    decreases values.len(),
{
    if values.len() == 0 {
        start
    } else {
        after_appends(start, values.drop_last()).push(values.last())
    }
}

/// Appending `values` one after another keeps what the list held and puts
/// the values behind it in the order of the calls.
pub proof fn lemma_after_appends<T>(start: Seq<T>, values: Seq<T>)
    ensures
        after_appends(start, values) == start + values,
    decreases values.len(),
{
    if values.len() == 0 {
        assert(start + values =~= start);
    } else {
        lemma_after_appends(start, values.drop_last());
        assert((start + values.drop_last()).push(values.last()) =~= start + values);
    }
}

/// However many values are appended to an empty list, its length is the
/// number of appends, and walking it yields the values in the reverse of the
/// order in which they were appended.
pub proof fn lemma_appends_are_counted_and_walked_backwards<T>(values: Seq<T>)
    ensures
        after_appends(Seq::empty(), values).len() == values.len(),
        after_appends(Seq::empty(), values).reverse().len() == values.len(),
        forall|i: int|
            0 <= i < values.len() ==> #[trigger] after_appends(Seq::empty(), values).reverse()[i]
                == values[values.len() - 1 - i],
{
    lemma_after_appends(Seq::empty(), values);
    assert(Seq::<T>::empty() + values =~= values);
}

/// A cursor over a [`List`], from its newest value to its oldest.
///
/// The cursor borrows the list it walks, so every reference it hands out
/// lives as long as that borrow.
pub struct Iter<'a, T> {
    node: &'a Option<Arc<Node<T>>>,
}

impl<'a, T> View for Iter<'a, T> {
    type V = Seq<T>;

    /// The values still to be yielded, in the order in which they will come.
    closed spec fn view(&self) -> Seq<T> {
        chain(*self.node).reverse()
    }
}

impl<'a, T> Iter<'a, T> {
    /// A cursor that stands before the newest value of `list`.
    pub fn new(list: &'a List<T>) -> (iter: Self)
        ensures
            iter@ == list@.reverse(),
    {
        Self { node: &list.node }
    }

    /// Yields the next value, or `None` once the oldest value has been
    /// yielded.
    pub fn next(&mut self) -> (item: Option<&'a T>)
        ensures
            old(self)@.len() == 0 ==> item is None && final(self)@ == old(self)@,
            old(self)@.len() > 0 ==> item == Some(&old(self)@[0]) && final(self)@ == old(
                self,
            )@.skip(1),
    {
        match self.node {
            None => None,
            Some(node) => {
                assert(chain(node.prev).push(node.value).reverse().skip(1) =~= chain(
                    node.prev,
                ).reverse());
                self.node = &node.prev;
                Some(&node.value)
            },
        }
    }
}

} // verus!
