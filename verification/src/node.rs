//! The tree node and its child slots.
//!
//! A tree is named by its root node. Each node holds one element and two child
//! slots; a slot is empty, owns its subtree alone, or holds a counted handle to
//! a subtree that other trees may hold too. Contracts speak of a tree through
//! the set of its elements (`@`), through `wf`, and, where the ownership of
//! slots matters, through the shape that an operation leaves behind.
use crate::laws::{lemma_all_shared, lemma_with_inserted};
use crate::order::{clone_is_exact, element_laws, lemma_trichotomy, lt};
use std::sync::Arc;
use vstd::laws_cmp::obeys_cmp_partial_ord;
use vstd::laws_eq::obeys_concrete_eq;
use vstd::prelude::*;

verus! {

/// One child slot of a node.
#[derive(Debug)]
pub enum Child<T: Clone> {
    /// The subtree belongs to this tree alone and may be changed in place.
    Exclusive(Box<Node<T>>),
    /// The subtree may belong to several trees and is never changed.
    Shared(Arc<Box<Node<T>>>),
    /// No subtree.
    Empty,
}

/// A node of the tree: an element, the subtree of what is below it and the
/// subtree of what is above it.
#[derive(Debug)]
pub struct Node<T: Clone> {
    pub left: Child<T>,
    pub right: Child<T>,
    pub element: T,
}

impl<T: Clone> Child<T> {
    /// The top node of the subtree in this slot, if there is one.
    pub open spec fn node(self) -> Option<Node<T>> {
        match self {
            Child::Exclusive(b) => Some(*b),
            Child::Shared(a) => Some(**a),
            Child::Empty => None,
        }
    }

    /// The elements of the subtree in this slot.
    pub open spec fn elements(self) -> Set<T>
        decreases self,
    {
        match self {
            Child::Exclusive(b) => b.elements(),
            Child::Shared(a) => a.elements(),
            Child::Empty => Set::empty(),
        }
    }

    /// The number of nodes of the subtree in this slot.
    pub open spec fn size(self) -> nat
        decreases self,
    {
        match self {
            Child::Exclusive(b) => b.size(),
            Child::Shared(a) => a.size(),
            Child::Empty => 0,
        }
    }

    /// No slot at or below this one is `Exclusive`.
    pub open spec fn is_fully_shared(self) -> bool
        decreases self,
    {
        match self {
            Child::Exclusive(_) => false,
            Child::Shared(a) => a.is_fully_shared(),
            Child::Empty => true,
        }
    }

    /// The number of nodes on the longest way down from this slot.
    pub open spec fn height(self) -> nat
        decreases self,
    {
        match self {
            Child::Exclusive(b) => b.height(),
            Child::Shared(a) => a.height(),
            Child::Empty => 0,
        }
    }

    /// The number of `Exclusive` slots at or below this one that are reached
    /// through `Exclusive` slots alone.
    pub open spec fn exclusive_slots(self) -> nat
        decreases self,
    {
        match self {
            Child::Exclusive(b) => 1 + b.exclusive_slots(),
            _ => 0,
        }
    }

    /// This slot after promotion to `Shared`: an exclusively owned subtree is
    /// put behind a counted handle as it is, anything else stays.
    pub open spec fn promoted_to_shared(self) -> Self {
        match self {
            Child::Exclusive(b) => Child::Shared(Arc::new(b)),
            other => other,
        }
    }

    /// This slot after promotion to `Exclusive`: the top node of a shared
    /// subtree is duplicated into a node owned alone, whose own slots are the
    /// shared node's slots; anything else stays.
    pub open spec fn promoted_to_exclusive(self) -> Self {
        match self {
            Child::Shared(a) => Child::Exclusive(Box::new(**a)),
            other => other,
        }
    }

    /// This slot once every `Exclusive` slot at or below it is `Shared`.
    pub open spec fn all_shared(self) -> Self
        decreases self,
    {
        match self {
            Child::Exclusive(b) => Child::Shared(Arc::new(Box::new(b.all_shared()))),
            other => other,
        }
    }

    /// The top node of a shared subtree can be duplicated without copying
    /// anything below it.
    pub open spec fn can_promote_to_exclusive(self) -> bool {
        match self {
            Child::Shared(a) => a.can_duplicate(),
            _ => true,
        }
    }

    /// Promotes a `Shared` slot to `Exclusive` by duplicating its top node.
    pub fn make_exclusive(&mut self)
        requires
            clone_is_exact::<T>(),
            old(self).can_promote_to_exclusive(),
        ensures
            *final(self) == old(self).promoted_to_exclusive(),
    {
        let mut slot = Child::Empty;
        core::mem::swap(self, &mut slot);
        *self = match slot {
            Child::Shared(arc) => Child::Exclusive(Box::new((**arc).clone())),
            other => other,
        };
    }

    /// Promotes an `Exclusive` slot to `Shared`.
    pub fn make_shared(&mut self)
        ensures
            *final(self) == old(self).promoted_to_shared(),
    {
        let mut slot = Child::Empty;
        core::mem::swap(self, &mut slot);
        *self = match slot {
            Child::Exclusive(b) => Child::Shared(Arc::new(b)),
            other => other,
        };
    }

    /// Whether the slot is empty.
    pub fn is_none(&self) -> (r: bool)
        ensures
            r == (*self is Empty),
    {
        match self {
            Child::Empty => true,
            _ => false,
        }
    }
}

impl<T: Clone> Node<T> {
    /// The elements of the tree below and at this node.
    pub open spec fn elements(self) -> Set<T>
        decreases self,
    {
        self.left.elements().union(self.right.elements()).insert(self.element)
    }

    /// The number of nodes of the tree below and at this node.
    pub open spec fn size(self) -> nat
        decreases self,
    {
        self.left.size() + self.right.size() + 1
    }

    /// No slot of the tree is `Exclusive`.
    pub open spec fn is_fully_shared(self) -> bool
        decreases self,
    {
        self.left.is_fully_shared() && self.right.is_fully_shared()
    }

    /// The number of nodes on the longest way down from this node, itself
    /// included.
    pub open spec fn height(self) -> nat
        decreases self,
    {
        1 + if self.left.height() >= self.right.height() {
            self.left.height()
        } else {
            self.right.height()
        }
    }

    /// The number of `Exclusive` slots of the tree that are reached through
    /// `Exclusive` slots alone.
    pub open spec fn exclusive_slots(self) -> nat
        decreases self,
    {
        self.left.exclusive_slots() + self.right.exclusive_slots()
    }

    /// Neither slot of this node is `Exclusive`, so that the node can be
    /// duplicated without copying a subtree.
    pub open spec fn can_duplicate(self) -> bool {
        !(self.left is Exclusive) && !(self.right is Exclusive)
    }

    /// This tree once every `Exclusive` slot of it is `Shared`.
    pub open spec fn all_shared(self) -> Self
        decreases self,
    {
        Node {
            left: self.left.all_shared(),
            right: self.right.all_shared(),
            element: self.element,
        }
    }

    /// A shallow duplicate of this node: the element is cloned, each slot is
    /// copied by its handle.
    pub fn clone(&self) -> (duplicate: Self)
        requires
            self.can_duplicate(),
        ensures
            duplicate.left == self.left,
            duplicate.right == self.right,
            cloned::<T>(self.element, duplicate.element),
            clone_is_exact::<T>() ==> duplicate == *self,
    {
        let left = match &self.left {
            Child::Shared(c) => Child::Shared(c.clone()),
            _ => Child::Empty,
        };
        let right = match &self.right {
            Child::Shared(c) => Child::Shared(c.clone()),
            _ => Child::Empty,
        };
        let element = self.element.clone();
        assert(cloned::<T>(self.element, element));
        Node { left, right, element }
    }
}

impl<T: Clone + Ord> Child<T> {
    /// The subtree in this slot is a search tree, and whatever it holds
    /// behind a counted handle is shared all the way down.
    pub open spec fn wf(self) -> bool
        decreases self,
    {
        match self {
            Child::Exclusive(b) => b.wf(),
            Child::Shared(a) => a.wf() && a.is_fully_shared(),
            Child::Empty => true,
        }
    }

    /// This slot after `v` has been inserted below it: an empty slot gets a
    /// new leaf, a shared top node is duplicated first, and the slot ends up
    /// `Exclusive` in every case.
    pub open spec fn with_inserted(self, v: T) -> Self
        decreases self,
    {
        match self {
            Child::Exclusive(b) => Child::Exclusive(Box::new(b.with_inserted(v))),
            Child::Shared(a) => Child::Exclusive(Box::new(a.with_inserted(v))),
            Child::Empty => Child::Exclusive(Box::new(Node::leaf(v))),
        }
    }
}

impl<T: Clone + Ord> Node<T> {
    /// A node without subtrees.
    pub open spec fn leaf(element: T) -> Self {
        Node { left: Child::Empty, right: Child::Empty, element }
    }

    /// The tree is a search tree: whatever is in the left subtree is below
    /// the element, whatever is in the right subtree is above it, and so on
    /// down; and each subtree behind a counted handle is shared all the way
    /// down.
    pub open spec fn wf(self) -> bool
        decreases self,
    {
        &&& self.left.wf()
        &&& self.right.wf()
        &&& forall|x: T| #[trigger] self.left.elements().contains(x) ==> lt(x, self.element)
        &&& forall|x: T| #[trigger] self.right.elements().contains(x) ==> lt(self.element, x)
    }

    /// This tree after `v` has been inserted: unchanged where `v` is its
    /// element, else with `v` inserted on the side of the element where it
    /// belongs and the other side untouched.
    pub open spec fn with_inserted(self, v: T) -> Self
        decreases self,
    {
        if v == self.element {
            self
        } else if lt(v, self.element) {
            Node { left: self.left.with_inserted(v), right: self.right, element: self.element }
        } else {
            Node { left: self.left, right: self.right.with_inserted(v), element: self.element }
        }
    }

    /// A tree of one node.
    pub fn new(element: T) -> (node: Self)
        ensures
            node == Self::leaf(element),
            node@ == set![element],
            node.wf(),
    {
        let node = Node { left: Child::Empty, right: Child::Empty, element };
        assert(node@ =~= set![element]);
        node
    }

    /// Whether `v` is an element of the tree.
    pub fn contains(&self, v: T) -> (found: bool)
        requires
            element_laws::<T>(),
            self.wf(),
        ensures
            found == self@.contains(v),
        decreases self,
    {
        proof {
            reveal(obeys_cmp_partial_ord);
            reveal(obeys_concrete_eq);
            lemma_trichotomy(v, self.element);
        }
        if self.element == v {
            return true;
        }
        let below = v < self.element;
        let slot = if below { &self.left } else { &self.right };
        assert(below ==> !self.right.elements().contains(v));
        assert(!below ==> !self.left.elements().contains(v));
        match slot {
            Child::Exclusive(b) => b.contains(v),
            Child::Shared(arc) => arc.contains(v),
            Child::Empty => false,
        }
    }

    /// Promotes every `Exclusive` slot of the tree to `Shared`, the slots of
    /// a subtree before the slot that holds it. Elements and nodes stay as
    /// they are.
    pub fn make_shared(&mut self)
        requires
            old(self).wf(),
        ensures
            *final(self) == old(self).all_shared(),
            final(self).is_fully_shared(),
            final(self).wf(),
            final(self)@ == old(self)@,
            final(self).size() == old(self).size(),
        decreases *old(self),
    {
        match &mut self.left {
            Child::Exclusive(b) => b.make_shared(),
            _ => {},
        }
        self.left.make_shared();
        match &mut self.right {
            Child::Exclusive(b) => b.make_shared(),
            _ => {},
        }
        self.right.make_shared();
        proof {
            lemma_all_shared(*old(self));
        }
    }

    /// Inserts `v` into the tree. A tree that holds `v` keeps its elements
    /// and the number of its nodes; any other gains `v` in one new leaf. On
    /// the way down every `Shared` slot is promoted to `Exclusive`, and no
    /// slot off that way changes.
    pub fn insert(&mut self, v: T)
        requires
            element_laws::<T>(),
            old(self).wf(),
        ensures
            *final(self) == old(self).with_inserted(v),
            final(self).wf(),
            final(self)@ == old(self)@.insert(v),
            final(self).size() == old(self).size() + if old(self)@.contains(v) {
                0nat
            } else {
                1nat
            },
        decreases *old(self),
    {
        proof {
            reveal(obeys_cmp_partial_ord);
            reveal(obeys_concrete_eq);
            lemma_with_inserted(*old(self), v);
        }
        if self.element == v {
            return ;
        }
        let slot = if v < self.element { &mut self.left } else { &mut self.right };
        if slot.is_none() {
            *slot = Child::Exclusive(Box::new(Node::new(v)));
        } else {
            slot.make_exclusive();
            match slot {
                Child::Exclusive(child) => child.insert(v),
                _ => {},
            }
        }
    }

    /// Shares the whole tree and hands out a second tree of the same shape,
    /// which from then on changes apart from this one. Both hold the
    /// elements that this tree held.
    pub fn snapshot(&mut self) -> (copy: Self)
        requires
            clone_is_exact::<T>(),
            old(self).wf(),
        ensures
            *final(self) == old(self).all_shared(),
            copy == *final(self),
            final(self).is_fully_shared(),
            final(self).wf(),
            copy.wf(),
            final(self)@ == old(self)@,
            copy@ == old(self)@,
    {
        self.make_shared();
        self.clone()
    }
}

impl<T: Clone> View for Node<T> {
    type V = Set<T>;

    open spec fn view(&self) -> Set<T> {
        self.elements()
    }
}

} // verus!
