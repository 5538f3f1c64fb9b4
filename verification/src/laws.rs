//! What holds of the tree's operations, stated over the shapes and the sets
//! of elements that their contracts speak of.
use crate::node::{Child, Node};
use crate::order::{element_laws, lemma_trichotomy, lt};
use vstd::prelude::*;
use vstd::set_lib::lemma_set_disjoint_lens;

verus! {

/// Sharing a well-formed subtree all the way down keeps it well formed, keeps
/// its elements and its nodes, and leaves no slot `Exclusive`.
pub proof fn lemma_child_all_shared<T: Clone + Ord>(slot: Child<T>)
    requires
        slot.wf(),
    ensures
        slot.all_shared().wf(),
        slot.all_shared().is_fully_shared(),
        slot.all_shared().elements() == slot.elements(),
        slot.all_shared().size() == slot.size(),
        slot.all_shared().height() == slot.height(),
    decreases slot,
{
    if slot is Exclusive {
        lemma_all_shared(slot.node().unwrap());
    }
}

/// Sharing a well-formed tree all the way down keeps it well formed, keeps its
/// elements and its nodes, and leaves no slot `Exclusive`.
pub proof fn lemma_all_shared<T: Clone + Ord>(tree: Node<T>)
    requires
        tree.wf(),
    ensures
        tree.all_shared().wf(),
        tree.all_shared().is_fully_shared(),
        tree.all_shared()@ == tree@,
        tree.all_shared().size() == tree.size(),
        tree.all_shared().height() == tree.height(),
    decreases tree,
{
    lemma_child_all_shared(tree.left);
    lemma_child_all_shared(tree.right);
}

/// An insertion below a slot of a well-formed tree leaves a well-formed
/// subtree that holds the new element beside the old ones, with one node more
/// exactly where the element is new.
pub proof fn lemma_child_with_inserted<T: Clone + Ord>(slot: Child<T>, v: T)
    requires
        element_laws::<T>(),
        slot.wf(),
    ensures
        slot.with_inserted(v).wf(),
        slot.with_inserted(v).elements() == slot.elements().insert(v),
        slot.with_inserted(v).size() == slot.size() + if slot.elements().contains(v) {
            0nat
        } else {
            1nat
        },
    decreases slot,
{
    match slot.node() {
        Some(top) => lemma_with_inserted(top, v),
        None => {
            assert(Node::leaf(v).elements() =~= Set::empty().insert(v));
        },
    }
}

/// An insertion into a well-formed tree leaves a well-formed tree that holds
/// the new element beside the old ones, with one node more exactly where the
/// element is new.
pub proof fn lemma_with_inserted<T: Clone + Ord>(tree: Node<T>, v: T)
    requires
        element_laws::<T>(),
        tree.wf(),
    ensures
        tree.with_inserted(v).wf(),
        tree.with_inserted(v)@ == tree@.insert(v),
        tree.with_inserted(v).size() == tree.size() + if tree@.contains(v) {
            0nat
        } else {
            1nat
        },
    decreases tree,
{
    let after = tree.with_inserted(v);
    lemma_trichotomy(v, tree.element);
    if v == tree.element {
        assert(tree@ =~= tree@.insert(v));
    } else if lt(v, tree.element) {
        lemma_child_with_inserted(tree.left, v);
        assert(!tree.right.elements().contains(v));
        assert(after@ =~= tree@.insert(v));
    } else {
        lemma_child_with_inserted(tree.right, v);
        assert(!tree.left.elements().contains(v));
        assert(after@ =~= tree@.insert(v));
    }
}

/// A well-formed subtree has as many nodes as elements.
pub proof fn lemma_child_size_counts_elements<T: Clone + Ord>(slot: Child<T>)
    requires
        element_laws::<T>(),
        slot.wf(),
    ensures
        slot.elements().finite(),
        slot.elements().len() == slot.size(),
    decreases slot,
{
    match slot.node() {
        Some(top) => lemma_size_counts_elements(top),
        None => {},
    }
}

/// A well-formed tree holds no element twice: it has as many nodes as
/// elements.
pub proof fn lemma_size_counts_elements<T: Clone + Ord>(tree: Node<T>)
    requires
        element_laws::<T>(),
        tree.wf(),
    ensures
        tree@.finite(),
        tree@.len() == tree.size(),
    decreases tree,
{
    let below = tree.left.elements();
    let above = tree.right.elements();
    lemma_child_size_counts_elements(tree.left);
    lemma_child_size_counts_elements(tree.right);
    assert(below.disjoint(above)) by {
        assert forall|x: T| below.contains(x) implies !above.contains(x) by {
            lemma_trichotomy(x, tree.element);
        }
    }
    lemma_set_disjoint_lens(below, above);
    assert(!below.union(above).contains(tree.element)) by {
        lemma_trichotomy(tree.element, tree.element);
    }
}

/// After an insertion the tree is still a search tree, the inserted element
/// is one of its elements, and so is every element that it held before.
pub proof fn lemma_insert_adds_and_keeps<T: Clone + Ord>(tree: Node<T>, v: T)
    requires
        element_laws::<T>(),
        tree.wf(),
    ensures
        tree.with_inserted(v).wf(),
        tree.with_inserted(v)@.contains(v),
        forall|u: T| tree@.contains(u) ==> #[trigger] tree.with_inserted(v)@.contains(u),
{
    lemma_with_inserted(tree, v);
}

/// Inserting an element that the tree holds changes neither the elements nor
/// the number of nodes.
pub proof fn lemma_insert_of_present<T: Clone + Ord>(tree: Node<T>, v: T)
    requires
        element_laws::<T>(),
        tree.wf(),
        tree@.contains(v),
    ensures
        tree.with_inserted(v)@ == tree@,
        tree.with_inserted(v).size() == tree.size(),
{
    lemma_with_inserted(tree, v);
    assert(tree@.insert(v) =~= tree@);
}

/// A second insertion of the same element below a slot changes nothing.
pub proof fn lemma_child_insert_twice<T: Clone + Ord>(slot: Child<T>, v: T)
    ensures
        slot.with_inserted(v).with_inserted(v) == slot.with_inserted(v),
    decreases slot,
{
    match slot.node() {
        Some(top) => lemma_insert_twice(top, v),
        None => {},
    }
}

/// A second insertion of the same element changes nothing: the tree keeps its
/// shape, and with it its elements and the number of its nodes.
pub proof fn lemma_insert_twice<T: Clone + Ord>(tree: Node<T>, v: T)
    ensures
        tree.with_inserted(v).with_inserted(v) == tree.with_inserted(v),
        tree.with_inserted(v).with_inserted(v)@ == tree.with_inserted(v)@,
        tree.with_inserted(v).with_inserted(v).size() == tree.with_inserted(v).size(),
    decreases tree,
{
    if v != tree.element {
        if lt(v, tree.element) {
            lemma_child_insert_twice(tree.left, v);
        } else {
            lemma_child_insert_twice(tree.right, v);
        }
    }
}

/// Two trees that were one before a snapshot go apart: an element that is
/// new to them and is inserted into one is an element of that one and none of
/// the other. Both hold the shape `tree.all_shared()` once the snapshot is
/// taken, so this holds whichever of the two gets the element.
pub proof fn lemma_snapshot_independence<T: Clone + Ord>(tree: Node<T>, v: T)
    requires
        element_laws::<T>(),
        tree.wf(),
        !tree@.contains(v),
    ensures
        !tree.all_shared()@.contains(v),
        tree.all_shared().with_inserted(v)@.contains(v),
        tree.all_shared().with_inserted(v)@ == tree@.insert(v),
        tree.all_shared().with_inserted(v).wf(),
{
    lemma_all_shared(tree);
    lemma_with_inserted(tree.all_shared(), v);
}

/// An insertion below a slot of a fully shared tree makes `Exclusive` no more
/// slots than the way down is long.
pub proof fn lemma_child_insert_unshares_a_path<T: Clone + Ord>(slot: Child<T>, v: T)
    requires
        slot.is_fully_shared(),
    ensures
        slot.with_inserted(v).exclusive_slots() <= 1 + slot.height(),
    decreases slot,
{
    match slot.node() {
        Some(top) => lemma_insert_unshares_a_path(top, v),
        None => {
            assert(Node::leaf(v).exclusive_slots() == 0);
        },
    }
}

/// An insertion into a fully shared tree, such as a snapshot or the tree it
/// was taken of, duplicates nodes along one way down only: the slots that it
/// leaves `Exclusive` are no more than the tree is high, and every other slot
/// is `Shared` or empty as before.
pub proof fn lemma_insert_unshares_a_path<T: Clone + Ord>(tree: Node<T>, v: T)
    requires
        tree.is_fully_shared(),
    ensures
        tree.with_inserted(v).exclusive_slots() <= tree.height(),
    decreases tree,
{
    assert(tree.left.exclusive_slots() == 0 && tree.right.exclusive_slots() == 0);
    if v != tree.element {
        if lt(v, tree.element) {
            lemma_child_insert_unshares_a_path(tree.left, v);
        } else {
            lemma_child_insert_unshares_a_path(tree.right, v);
        }
    }
}

} // verus!
