//! A minimal counter component: the smallest state a display component can
//! own, with the full component contract.

use vstd::prelude::*;
use vstd::string::*;

use crate::component::{Component, ShouldRender};
use crate::decimal::{dec_seq, fmt_u64};
use crate::view::{view_trees, ViewNode, ViewTree};

verus! {

broadcast use crate::view::lemma_view_trees_elementwise;

/// The counter's two actions.
#[derive(Copy, Clone, Debug, PartialEq, Eq)]
pub enum Action {
    Increment,
    Decrement,
}

/// The counter component.
#[derive(Debug)]
pub struct Root {
    pub count: usize,
}

/// The counter's display tree: the count in decimal and one button per
/// action.
pub open spec fn spec_root_view(count: nat) -> ViewTree<Action> {
    ViewTree::Container {
        class: "counter"@,
        children: seq![
            ViewTree::Text(dec_seq(count)),
            ViewTree::Button { label: "increment"@, action: Action::Increment },
            ViewTree::Button { label: "decrement"@, action: Action::Decrement },
        ],
    }
}

impl Root {
    /// A counter starting at zero.
    pub fn new() -> (r: Root)
        ensures
            r.count == 0,
    {
        Root { count: 0 }
    }
}

impl Component for Root {
    type Action = Action;

    /// The count must stay within its machine type: no decrement at zero,
    /// no increment at the top.
    open spec fn can_update(&self, a: &Action) -> bool {
        match a {
            Action::Increment => self.count < usize::MAX,
            Action::Decrement => self.count > 0,
        }
    }

    open spec fn next(&self, a: Action) -> Root {
        match a {
            Action::Increment => Root { count: (self.count + 1) as usize },
            Action::Decrement => Root { count: (self.count - 1) as usize },
        }
    }

    /// Every action changes the count, so every action asks for a render.
    open spec fn renders(&self, a: &Action) -> bool {
        true
    }

    open spec fn tree(&self) -> ViewTree<Action> {
        spec_root_view(self.count as nat)
    }

    fn update(&mut self, a: Action) -> (r: ShouldRender) {
        match a {
            Action::Increment => {
                self.count = self.count + 1;
            },
            Action::Decrement => {
                self.count = self.count - 1;
            },
        }
        true
    }

    fn render(&self) -> (t: ViewNode<Action>) {
        let mut children: Vec<ViewNode<Action>> = Vec::new();
        children.push(ViewNode::Text(fmt_u64(self.count as u64)));
        children.push(ViewNode::Button { label: "increment".to_owned(), action: Action::Increment });
        children.push(ViewNode::Button { label: "decrement".to_owned(), action: Action::Decrement });
        let t = ViewNode::Container { class: "counter".to_owned(), children };
        proof {
            assert(view_trees(children@) =~= seq![
                ViewTree::Text::<Action>(dec_seq(self.count as nat)),
                ViewTree::Button::<Action> { label: "increment"@, action: Action::Increment },
                ViewTree::Button::<Action> { label: "decrement"@, action: Action::Decrement },
            ]);
            assert(self.tree()->Container_children =~= view_trees(children@));
            assert(t@ == self.tree());
        }
        t
    }
}

} // verus!
