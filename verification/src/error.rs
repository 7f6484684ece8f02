//! The log entry for a failed request: the url it was for and the opaque,
//! displayable error the transport returned.

use vstd::prelude::*;
use vstd::string::*;

use crate::client::StateMessage;
use crate::message::ProtocolError;
use crate::view::{view_trees, ViewNode, ViewTree};

verus! {

broadcast use crate::view::lemma_view_trees_elementwise;

/// A failed request, ready for display.
pub struct Error {
    request: String,
    error: ProtocolError,
}

/// The mathematical content of an `Error` entry.
pub struct ErrorView {
    pub request: Seq<char>,
    pub error: Seq<char>,
}

impl View for Error {
    type V = ErrorView;

    closed spec fn view(&self) -> ErrorView {
        ErrorView { request: self.request@, error: self.error@ }
    }
}

/// The display tree of a failed request: a header naming the url and the
/// error's description.
pub open spec fn spec_error_view(v: ErrorView) -> ViewTree<StateMessage> {
    ViewTree::Container {
        class: "response bad"@,
        children: seq![
            ViewTree::Text("Error requesting "@ + v.request),
            ViewTree::Text(v.error),
        ],
    }
}

impl Error {
    /// Builds the log entry for a failed request.
    pub fn new(request: String, error: ProtocolError) -> (r: Error)
        ensures
            r@ == (ErrorView { request: request@, error: error@ }),
    {
        Error { request, error }
    }

    /// The url of the request this failure answers.
    pub fn request_url(&self) -> (r: &String)
        ensures
            r@ == self@.request,
    {
        &self.request
    }

    /// Projects the entry into its display tree.
    pub fn view_nodes(&self) -> (t: ViewNode<StateMessage>)
        ensures
            t@ == spec_error_view(self@),
    {
        let mut header = "Error requesting ".to_owned();
        header.append(self.request.as_str());
        let mut children: Vec<ViewNode<StateMessage>> = Vec::new();
        children.push(ViewNode::Text(header));
        children.push(ViewNode::Text(self.error.description.clone()));
        let t = ViewNode::Container { class: "response bad".to_owned(), children };
        proof {
            assert(view_trees(children@) =~= seq![
                ViewTree::Text::<StateMessage>("Error requesting "@ + self@.request),
                ViewTree::Text::<StateMessage>(self@.error),
            ]);
            assert(t@ == spec_error_view(self@));
        }
        t
    }
}

} // verus!
