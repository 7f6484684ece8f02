//! The view model: a tree of display nodes produced by the pure render
//! functions and consumed by a presentation layer.  A node is plain text, the
//! url input field (whose edits and submissions feed the session actions), a
//! button producing an action of type `A`, or a styled container of child
//! nodes.

use vstd::prelude::*;

verus! {

broadcast use {
    vstd::std_specs::vec::axiom_vec_index_decreases,
    vstd::std_specs::vec::axiom_vec_decreases_to_view,
};

/// An executable display-node tree with actions of type `A`.
#[derive(Debug, PartialEq, Eq)]
pub enum ViewNode<A> {
    Text(String),
    /// The interactive url input field; editing it yields a url-change
    /// action, submitting it yields a submit action.
    Input { value: String },
    /// An interactive button; pressing it yields `action`.
    Button { label: String, action: A },
    /// A container with a style-class hint and ordered children.
    Container { class: String, children: Vec<ViewNode<A>> },
}

/// The mathematical shape of a display-node tree.
#[verifier::ext_equal]
pub enum ViewTree<A> {
    Text(Seq<char>),
    Input { value: Seq<char> },
    Button { label: Seq<char>, action: A },
    Container { class: Seq<char>, children: Seq<ViewTree<A>> },
}

/// The abstraction of a sequence of display nodes, in order.
pub open spec fn view_trees<A>(s: Seq<ViewNode<A>>) -> Seq<ViewTree<A>>
    decreases s,
{
    if s.len() == 0 {
        Seq::empty()
    } else {
        view_trees(s.drop_last()).push(s.last().view_tree())
    }
}

impl<A> ViewNode<A> {
    /// The abstraction of the tree: every string replaced by its character
    /// sequence, every child list by its sequence.
    pub open spec fn view_tree(self) -> ViewTree<A>
        decreases self,
    {
        match self {
            ViewNode::Text(s) => ViewTree::Text(s@),
            ViewNode::Input { value } => ViewTree::Input { value: value@ },
            ViewNode::Button { label, action } => ViewTree::Button { label: label@, action },
            ViewNode::Container { class, children } => ViewTree::Container {
                class: class@,
                children: view_trees(children@),
            },
        }
    }
}

impl<A> View for ViewNode<A> {
    type V = ViewTree<A>;

    open spec fn view(&self) -> ViewTree<A> {
        self.view_tree()
    }
}

/// The size of a tree: the number of its nodes.  Recursive functions over
/// trees decrease by it.
pub open spec fn tree_size<A>(t: ViewTree<A>) -> nat
    decreases t,
{
    match t {
        ViewTree::Container { children, .. } => 1 + trees_size(children),
        _ => 1,
    }
}

/// The total size of a sequence of trees.
pub open spec fn trees_size<A>(ts: Seq<ViewTree<A>>) -> nat
    decreases ts,
{
    if ts.len() == 0 {
        0
    } else {
        trees_size(ts.drop_last()) + tree_size(ts.last())
    }
}

/// Every tree of a sequence is at most as large as the whole sequence.
pub proof fn lemma_tree_size_le<A>(ts: Seq<ViewTree<A>>, k: int)
    requires
        0 <= k < ts.len(),
    ensures
        tree_size(ts[k]) <= trees_size(ts),
    decreases ts.len(),
{
    if k == ts.len() - 1 {
    } else {
        lemma_tree_size_le(ts.drop_last(), k);
        assert(ts.drop_last()[k] == ts[k]);
    }
}

/// The abstraction of a node sequence is elementwise: as long as the
/// sequence, and at each position the abstraction of the node there.
pub broadcast proof fn lemma_view_trees_elementwise<A>(s: Seq<ViewNode<A>>)
    ensures
        (#[trigger] view_trees(s)).len() == s.len(),
        forall|i: int| 0 <= i < s.len() ==> #[trigger] view_trees(s)[i] == s[i].view_tree(),
    decreases s.len(),
{
    if s.len() > 0 {
        lemma_view_trees_elementwise(s.drop_last());
    }
}

} // verus!
