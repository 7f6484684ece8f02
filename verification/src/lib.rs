//! Interactive inspector for a request/response protocol: a session state
//! machine owning an append-only history log, a content-format driven payload
//! decoder that never fails its caller, and a pure projection of the session
//! state into a tree of display nodes.

pub mod client;
pub mod component;
pub mod decimal;
pub mod decode;
pub mod error;
pub mod log;
pub mod message;
pub mod response;
pub mod root;
pub mod slot;
pub mod view;
pub mod wire;

pub use client::{ActionTag, Effect, State, StateMessage};
pub use component::{Component, ShouldRender};
pub use decimal::fmt_u64;
pub use decode::{decode, effective_format, format_line, mime_name, render_raw_payload, FormatCode};
pub use error::Error;
pub use log::SessionLog;
pub use message::{Message, ProtocolError};
pub use response::{DisplayType, Response};
pub use root::{Action, Root};
pub use slot::RenderSlot;
pub use view::{ViewNode, ViewTree};
pub use wire::{
    classify_incoming, encode_node, encode_snapshot, escape_text, protocol_accepted,
    protocol_name, quote_text, WireIncoming, WireStep,
};
