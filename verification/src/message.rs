//! The protocol-level data that the session logic reads from a response: the
//! occurrences of the content-format option, the raw payload bytes, and a
//! displayable rendering of the whole message for the raw view.  A failed
//! request carries an opaque, displayable error.

use vstd::prelude::*;

verus! {

/// One successful protocol response, reduced to what the session reads.
#[derive(Debug, PartialEq, Eq)]
pub struct Message {
    /// Every occurrence of the content-format option, in message order.
    /// A well-formed message carries at most one; duplicates are handled
    /// by the decoder policy, not rejected here.
    pub format_options: Vec<u16>,
    /// The raw payload bytes.
    pub payload: Vec<u8>,
    /// A displayable rendering of the whole message, for the raw view.
    pub raw: String,
}

/// The mathematical content of a `Message`.
pub struct MessageView {
    pub format_options: Seq<u16>,
    pub payload: Seq<u8>,
    pub raw: Seq<char>,
}

impl View for Message {
    type V = MessageView;

    open spec fn view(&self) -> MessageView {
        MessageView {
            format_options: self.format_options@,
            payload: self.payload@,
            raw: self.raw@,
        }
    }
}

/// The mathematical content of one request outcome: the message content of
/// a success, the error description of a failure.
pub open spec fn outcome_view(o: Result<Message, ProtocolError>) -> Result<MessageView, Seq<char>> {
    match o {
        Result::Ok(m) => Result::Ok(m@),
        Result::Err(e) => Result::Err(e@),
    }
}

/// An opaque, displayable request-level failure.
#[derive(Debug, PartialEq, Eq)]
pub struct ProtocolError {
    pub description: String,
}

impl View for ProtocolError {
    type V = Seq<char>;

    open spec fn view(&self) -> Seq<char> {
        self.description@
    }
}

} // verus!
