//! The session log entry: a request that was submitted, or the outcome that
//! came back for one.  Entries are immutable once created, except for the
//! display toggle inside a successful response.

use vstd::prelude::*;
use vstd::string::*;

use crate::client::StateMessage;
use crate::error::{spec_error_view, Error, ErrorView};
use crate::message::{outcome_view, Message, MessageView, ProtocolError};
use crate::response::{self, spec_response_view, Response, ResponseView};
use crate::view::{view_trees, ViewNode, ViewTree};

verus! {

broadcast use crate::view::lemma_view_trees_elementwise;

/// One entry of the session history.
pub enum SessionLog {
    /// A request was submitted for this url.
    Request { url: String },
    /// A response came back for the named request.
    Response(Response),
    /// A failure came back for the named request.
    Error(Error),
}

/// The action a log entry's interactive parts produce.
#[derive(Copy, Clone, Debug, PartialEq, Eq)]
pub enum Msg {
    Response(response::Msg),
}

/// The mathematical content of a log entry.
pub enum LogView {
    Request { url: Seq<char> },
    Response(ResponseView),
    Error(ErrorView),
}

impl View for SessionLog {
    type V = LogView;

    open spec fn view(&self) -> LogView {
        match self {
            SessionLog::Request { url } => LogView::Request { url: url@ },
            SessionLog::Response(r) => LogView::Response(r@),
            SessionLog::Error(e) => LogView::Error(e@),
        }
    }
}

/// The entry an outcome turns into: a response entry for a success, an error
/// entry for a failure.
pub open spec fn spec_outcome_entry(
    request: Seq<char>,
    outcome: Result<MessageView, Seq<char>>,
) -> LogView {
    match outcome {
        Result::Ok(m) => LogView::Response(
            ResponseView { request, message: m, display: response::DisplayType::Rendered },
        ),
        Result::Err(e) => LogView::Error(ErrorView { request, error: e }),
    }
}

/// The entry a toggle action turns a log entry into: only a response
/// entry's display mode changes; any other entry is left as it stands.
pub open spec fn spec_toggled(v: LogView, m: Msg) -> LogView {
    match (v, m) {
        (LogView::Response(r), Msg::Response(mm)) => LogView::Response(
            ResponseView {
                display: match mm {
                    response::Msg::SwitchDisplay(d) => d,
                },
                ..r
            },
        ),
        (other, _) => other,
    }
}

/// The display tree of one log entry at position `index`: every entry is
/// wrapped in one styled container.
pub open spec fn spec_log_view(v: LogView, index: usize) -> ViewTree<StateMessage> {
    ViewTree::Container {
        class: "log-entry"@,
        children: seq![
            match v {
                LogView::Request { url } => ViewTree::Text("Request to "@ + url),
                LogView::Response(r) => spec_response_view(r, index),
                LogView::Error(e) => spec_error_view(e),
            },
        ],
    }
}

impl SessionLog {
    /// Builds the log entry for a completed request from its outcome.
    pub fn response(request: String, outcome: Result<Message, ProtocolError>) -> (r: SessionLog)
        ensures
            r@ == spec_outcome_entry(request@, outcome_view(outcome)),
    {
        match outcome {
            Result::Ok(message) => SessionLog::Response(Response::new(request, message)),
            Result::Err(error) => SessionLog::Error(Error::new(request, error)),
        }
    }

    /// Forwards a toggle action to the response entry it addresses.  The
    /// caller owes that the entry is a response: addressing any other entry
    /// is a defect, surfaced here as a broken contract rather than swallowed.
    pub fn update(&mut self, msg: Msg)
        requires
            *old(self) is Response,
        ensures
            final(self)@ == spec_toggled(old(self)@, msg),
    {
        match self {
            SessionLog::Response(r) => match msg {
                Msg::Response(m) => {
                    r.update(m);
                },
            },
            _ => {
                proof {
                    assert(false);
                }
            },
        }
    }

    /// Projects the entry at log position `index` into its display tree.
    pub fn view_nodes(&self, index: usize) -> (t: ViewNode<StateMessage>)
        ensures
            t@ == spec_log_view(self@, index),
    {
        let inner: ViewNode<StateMessage> = match self {
            SessionLog::Request { url } => {
                let mut line = "Request to ".to_owned();
                line.append(url.as_str());
                ViewNode::Text(line)
            },
            SessionLog::Response(r) => r.view_nodes(index),
            SessionLog::Error(e) => e.view_nodes(),
        };
        let mut children: Vec<ViewNode<StateMessage>> = Vec::new();
        children.push(inner);
        let t = ViewNode::Container { class: "log-entry".to_owned(), children };
        proof {
            assert(view_trees(children@) =~= seq![
                match self@ {
                    LogView::Request { url } => ViewTree::Text::<StateMessage>("Request to "@ + url),
                    LogView::Response(r) => spec_response_view(r, index),
                    LogView::Error(e) => spec_error_view(e),
                },
            ]);
            assert(t@ == spec_log_view(self@, index));
        }
        t
    }
}

} // verus!
