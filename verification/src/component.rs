//! The interface a display component offers its host: consume one action,
//! say whether a re-render is owed, and project the current state into a
//! display tree.

use vstd::prelude::*;

use crate::view::{ViewNode, ViewTree};

verus! {

/// Whether the host owes the component a re-render after an action.
pub type ShouldRender = bool;

/// A display component with actions of its own type.  An implementation
/// fixes, as specification functions, which actions it accepts in which
/// state, what one action does, and what its display tree is; `update` and
/// `render` are then held to exactly that.
pub trait Component: Sized {
    type Action;

    /// Whether the component accepts this action in its current state.
    spec fn can_update(&self, a: &Self::Action) -> bool;

    /// The state after one accepted action.
    spec fn next(&self, a: Self::Action) -> Self;

    /// Whether the action asks the host for a re-render.
    spec fn renders(&self, a: &Self::Action) -> bool;

    /// The abstraction of the component's display tree.
    spec fn tree(&self) -> ViewTree<Self::Action>;

    /// Consumes one action.
    fn update(&mut self, a: Self::Action) -> (r: ShouldRender)
        requires
            old(self).can_update(&a),
        ensures
            *final(self) == old(self).next(a),
            r == old(self).renders(&a),
    ;

    /// Projects the current state into its display tree.
    fn render(&self) -> (t: ViewNode<Self::Action>)
        ensures
            t@ == self.tree(),
    ;
}

} // verus!
