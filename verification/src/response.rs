//! The log entry for a successful response: the url it answers, the message
//! data, and the raw-versus-rendered display toggle.

use vstd::prelude::*;
use vstd::string::*;

use crate::client::StateMessage;
use crate::decode::{decode, format_line, effective_format, spec_decode, spec_effective_format,
    spec_format_line};
use crate::message::{Message, MessageView};
use crate::view::{view_trees, ViewNode, ViewTree};

verus! {

broadcast use crate::view::lemma_view_trees_elementwise;

/// Which rendering of the payload the entry currently shows.
#[derive(Copy, Clone, PartialEq, Eq, Debug, Structural)]
pub enum DisplayType {
    Rendered,
    Raw,
}

/// The action a response entry's toggle buttons produce.
#[derive(Copy, Clone, Debug, PartialEq, Eq)]
pub enum Msg {
    SwitchDisplay(DisplayType),
}

/// A successful response, ready for display.
pub struct Response {
    request: String,
    message: Message,
    display: DisplayType,
}

/// The mathematical content of a `Response` entry.
pub struct ResponseView {
    pub request: Seq<char>,
    pub message: MessageView,
    pub display: DisplayType,
}

impl View for Response {
    type V = ResponseView;

    closed spec fn view(&self) -> ResponseView {
        ResponseView { request: self.request@, message: self.message@, display: self.display }
    }
}

/// The content-format description line of a message, with the in-band
/// diagnostic note appended when the option occurred more than once and the
/// format therefore degraded to absent.
pub open spec fn spec_format_note(m: MessageView) -> Seq<char> {
    let eff = spec_effective_format(m.format_options);
    if eff.1 {
        spec_format_line(eff.0) + "; invalid content-format options"@
    } else {
        spec_format_line(eff.0)
    }
}

/// The rendered-payload block: a caption and the decoded payload under the
/// message's effective content-format.
pub open spec fn spec_payload_block(m: MessageView) -> ViewTree<StateMessage> {
    ViewTree::Container {
        class: "payload"@,
        children: seq![
            ViewTree::Text("Payload: "@),
            ViewTree::Text(spec_decode(spec_effective_format(m.format_options).0, m.payload)),
        ],
    }
}

/// The display-mode toggle row for the entry at `index`: pressing a button
/// yields the matching switch action addressed to that entry.
pub open spec fn spec_toggle_row(index: usize) -> ViewTree<StateMessage> {
    ViewTree::Container {
        class: "display-toggle"@,
        children: seq![
            ViewTree::Text("Body"@),
            ViewTree::Button {
                label: "rendered"@,
                action: StateMessage::LogMsg {
                    index,
                    msg: crate::log::Msg::Response(Msg::SwitchDisplay(DisplayType::Rendered)),
                },
            },
            ViewTree::Button {
                label: "raw"@,
                action: StateMessage::LogMsg {
                    index,
                    msg: crate::log::Msg::Response(Msg::SwitchDisplay(DisplayType::Raw)),
                },
            },
        ],
    }
}

/// The display tree of a successful response at log position `index`: a
/// header naming the url, the content-format line, the toggle row, and the
/// payload in the chosen rendering.
pub open spec fn spec_response_view(v: ResponseView, index: usize) -> ViewTree<StateMessage> {
    ViewTree::Container {
        class: "response good"@,
        children: seq![
            ViewTree::Text("Response for "@ + v.request),
            ViewTree::Text(spec_format_note(v.message)),
            spec_toggle_row(index),
            match v.display {
                DisplayType::Rendered => spec_payload_block(v.message),
                DisplayType::Raw => ViewTree::Text(v.message.raw),
            },
        ],
    }
}

impl Response {
    /// Builds the log entry for a successful response; the payload starts in
    /// its rendered form.
    pub fn new(request: String, message: Message) -> (r: Response)
        ensures
            r@ == (ResponseView {
                request: request@,
                message: message@,
                display: DisplayType::Rendered,
            }),
    {
        Response { request, message, display: DisplayType::Rendered }
    }

    /// The url of the request this response answers.
    pub fn request_url(&self) -> (r: &String)
        ensures
            r@ == self@.request,
    {
        &self.request
    }

    /// Applies a toggle action: only the display mode changes.
    pub fn update(&mut self, msg: Msg)
        ensures
            final(self)@ == (ResponseView {
                display: match msg {
                    Msg::SwitchDisplay(d) => d,
                },
                ..old(self)@
            }),
    {
        match msg {
            Msg::SwitchDisplay(display) => {
                self.display = display;
            },
        }
    }

    /// Projects the entry at log position `index` into its display tree.
    pub fn view_nodes(&self, index: usize) -> (t: ViewNode<StateMessage>)
        ensures
            t@ == spec_response_view(self@, index),
    {
        let mut header = "Response for ".to_owned();
        header.append(self.request.as_str());

        let eff = effective_format(&self.message.format_options);
        let mut note = format_line(eff.0);
        if eff.1 {
            note.append("; invalid content-format options");
        }

        let mut toggle_children: Vec<ViewNode<StateMessage>> = Vec::new();
        toggle_children.push(ViewNode::Text("Body".to_owned()));
        toggle_children.push(ViewNode::Button {
            label: "rendered".to_owned(),
            action: StateMessage::LogMsg {
                index,
                msg: crate::log::Msg::Response(Msg::SwitchDisplay(DisplayType::Rendered)),
            },
        });
        toggle_children.push(ViewNode::Button {
            label: "raw".to_owned(),
            action: StateMessage::LogMsg {
                index,
                msg: crate::log::Msg::Response(Msg::SwitchDisplay(DisplayType::Raw)),
            },
        });
        let toggle: ViewNode<StateMessage> = ViewNode::Container {
            class: "display-toggle".to_owned(),
            children: toggle_children,
        };
        proof {
            assert(view_trees(toggle_children@) =~= seq![
                ViewTree::Text::<StateMessage>("Body"@),
                ViewTree::Button::<StateMessage> {
                    label: "rendered"@,
                    action: StateMessage::LogMsg {
                        index,
                        msg: crate::log::Msg::Response(Msg::SwitchDisplay(DisplayType::Rendered)),
                    },
                },
                ViewTree::Button::<StateMessage> {
                    label: "raw"@,
                    action: StateMessage::LogMsg {
                        index,
                        msg: crate::log::Msg::Response(Msg::SwitchDisplay(DisplayType::Raw)),
                    },
                },
            ]);
            assert(toggle@ == spec_toggle_row(index));
        }

        let body: ViewNode<StateMessage> = match self.display {
            DisplayType::Rendered => {
                let mut payload_children: Vec<ViewNode<StateMessage>> = Vec::new();
                payload_children.push(ViewNode::Text("Payload: ".to_owned()));
                payload_children.push(ViewNode::Text(decode(eff.0, &self.message.payload)));
                let block: ViewNode<StateMessage> = ViewNode::Container {
                    class: "payload".to_owned(),
                    children: payload_children,
                };
                proof {
                    assert(view_trees(payload_children@) =~= seq![
                        ViewTree::Text::<StateMessage>("Payload: "@),
                        ViewTree::Text::<StateMessage>(
                            spec_decode(
                                spec_effective_format(self@.message.format_options).0,
                                self@.message.payload,
                            ),
                        ),
                    ]);
                    assert(block@ == spec_payload_block(self@.message));
                }
                block
            },
            DisplayType::Raw => ViewNode::Text(self.message.raw.clone()),
        };

        let mut children: Vec<ViewNode<StateMessage>> = Vec::new();
        children.push(ViewNode::Text(header));
        children.push(ViewNode::Text(note));
        children.push(toggle);
        children.push(body);
        let t = ViewNode::Container { class: "response good".to_owned(), children };
        proof {
            assert(view_trees(children@) =~= seq![
                ViewTree::Text::<StateMessage>("Response for "@ + self@.request),
                ViewTree::Text::<StateMessage>(spec_format_note(self@.message)),
                spec_toggle_row(index),
                match self@.display {
                    DisplayType::Rendered => spec_payload_block(self@.message),
                    DisplayType::Raw => ViewTree::Text(self@.message.raw),
                },
            ]);
            let sv = spec_response_view(self@, index);
            assert(sv->Container_children =~= view_trees(children@));
            assert(t@ == sv);
        }
        t
    }
}

} // verus!
