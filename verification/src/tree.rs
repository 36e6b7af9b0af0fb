//! The document tree, reduced to what the title search reads.

use vstd::prelude::*;

verus! {

/// A node of a parsed document.
#[derive(Debug, PartialEq, Eq)]
pub enum DocNode {
    /// A heading, with its rendered text content.
    Heading(String),
    /// Any other node that has a list of children (possibly empty).
    Parent(Vec<DocNode>),
    /// A node that cannot have children.
    Leaf,
}

/// The mathematical model of a [`DocNode`].
pub enum Outline {
    Heading(Seq<char>),
    Parent(Seq<Outline>),
    Leaf,
}

impl View for DocNode {
    type V = Outline;

    open spec fn view(&self) -> Outline
        decreases self,
    {
        match self {
            DocNode::Heading(text) => Outline::Heading(text@),
            DocNode::Parent(children) => Outline::Parent(
                Seq::new(
                    children.len() as nat,
                    |i: int|
                        if 0 <= i < children.len() {
                            children[i]@
                        } else {
                            Outline::Leaf
                        },
                ),
            ),
            DocNode::Leaf => Outline::Leaf,
        }
    }
}

/// The title that a tree yields: the text of the heading at the end of the
/// chain of first children that starts at `node`, if that chain ends in one.
pub open spec fn first_heading(node: Outline) -> Option<Seq<char>>
    decreases node,
{
    match node {
        Outline::Heading(text) => Some(text),
        Outline::Parent(children) => if children.len() > 0 {
            first_heading(children[0])
        } else {
            None
        },
        Outline::Leaf => None,
    }
}

/// Only the first child of a node counts: whatever follows it, the node
/// yields what its first child yields.
pub proof fn lemma_only_first_child_counts(first: Outline, rest: Seq<Outline>)
    ensures
        first_heading(Outline::Parent(seq![first] + rest)) == first_heading(first),
        first_heading(first) is None ==> first_heading(Outline::Parent(seq![first] + rest)) is None,
{
    let children = seq![first] + rest;
    assert(children.len() > 0);
    assert(children[0] == first);
}

} // verus!
