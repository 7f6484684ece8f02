//! The networked boundary of the session: which incoming transport messages
//! carry an action, which are noise, and which end the session; whether a
//! connecting client speaks this protocol; and the outbound snapshot
//! envelope, framed here character by character so that what goes on the
//! wire is exactly what the specification says.

use vstd::prelude::*;
use vstd::string::*;

use crate::client::StateMessage;
use crate::decimal::{dec_seq, fmt_u64};
use crate::log::Msg;
use crate::response::{self, DisplayType};
use crate::view::{lemma_tree_size_le, tree_size, trees_size, view_trees, ViewNode, ViewTree};

verus! {

broadcast use {
    crate::view::lemma_view_trees_elementwise,
    vstd::std_specs::vec::axiom_vec_index_decreases,
};

/// One incoming transport message, reduced to what the decision reads.
pub enum WireIncoming {
    /// A text frame: possibly an encoded action.
    Text(String),
    /// A binary frame: unexpected, ignored.
    Binary(Vec<u8>),
    /// A keep-alive probe; answering it is the transport's business, not an
    /// action of the session.
    Ping(Vec<u8>),
    /// The answer to a probe.
    Pong(Vec<u8>),
    /// The peer is closing.
    Close,
}

/// What to do with one incoming transport message.
pub enum WireStep {
    /// Hand this text to the action decoder.
    Deliver(String),
    /// Drop the message and read on.
    Ignore,
    /// Stop reading: the session is over.
    Terminate,
}

/// Classifies one incoming transport message: only a text frame carries an
/// action, a close ends the session, everything else is ignored.
pub fn classify_incoming(m: WireIncoming) -> (r: WireStep)
    ensures
        match m {
            WireIncoming::Text(s) => r matches WireStep::Deliver(t) && t@ == s@,
            WireIncoming::Close => r is Terminate,
            _ => r is Ignore,
        },
{
    match m {
        WireIncoming::Text(s) => WireStep::Deliver(s),
        WireIncoming::Close => WireStep::Terminate,
        WireIncoming::Binary(_) => WireStep::Ignore,
        WireIncoming::Ping(_) => WireStep::Ignore,
        WireIncoming::Pong(_) => WireStep::Ignore,
    }
}

/// The subprotocol name a connecting client must offer.
pub fn protocol_name() -> (r: &'static str)
    ensures
        r@ == "coap-browse"@,
{
    "coap-browse"
}

/// One hexadecimal digit, lower case.
pub open spec fn hex_char(d: nat) -> char {
    if d == 0 {
        '0'
    } else if d == 1 {
        '1'
    } else if d == 2 {
        '2'
    } else if d == 3 {
        '3'
    } else if d == 4 {
        '4'
    } else if d == 5 {
        '5'
    } else if d == 6 {
        '6'
    } else if d == 7 {
        '7'
    } else if d == 8 {
        '8'
    } else if d == 9 {
        '9'
    } else if d == 10 {
        'a'
    } else if d == 11 {
        'b'
    } else if d == 12 {
        'c'
    } else if d == 13 {
        'd'
    } else if d == 14 {
        'e'
    } else {
        'f'
    }
}

/// How one character appears inside a JSON string literal: the quote, the
/// backslash and the common control characters get their two-character
/// escapes, any other control character a hexadecimal escape, and everything
/// else stands for itself.
pub open spec fn escaped_char(c: char) -> Seq<char> {
    if c == '"' {
        "\\\""@
    } else if c == '\\' {
        "\\\\"@
    } else if c == '\n' {
        "\\n"@
    } else if c == '\r' {
        "\\r"@
    } else if c == '\t' {
        "\\t"@
    } else if (c as nat) < 32 {
        "\\u00"@ + seq![hex_char((c as nat) / 16), hex_char((c as nat) % 16)]
    } else {
        seq![c]
    }
}

/// The body of a JSON string literal for this text.
pub open spec fn escaped(s: Seq<char>) -> Seq<char>
    decreases s.len(),
{
    if s.len() == 0 {
        Seq::empty()
    } else {
        escaped(s.drop_last()) + escaped_char(s.last())
    }
}

/// The JSON string literal for this text, quotes included.
pub open spec fn quoted(s: Seq<char>) -> Seq<char> {
    "\""@ + escaped(s) + "\""@
}

/// Relies on String::push: appends exactly the one character.
#[verifier::external_body]
fn push_char(s: &mut String, c: char)
    ensures
        final(s)@ == old(s)@.push(c),
{
    s.push(c);
}

/// One hexadecimal digit, lower case, as a character.
fn hex_char_of(d: u32) -> (r: char)
    requires
        d < 16,
    ensures
        r == hex_char(d as nat),
{
    if d == 0 {
        '0'
    } else if d == 1 {
        '1'
    } else if d == 2 {
        '2'
    } else if d == 3 {
        '3'
    } else if d == 4 {
        '4'
    } else if d == 5 {
        '5'
    } else if d == 6 {
        '6'
    } else if d == 7 {
        '7'
    } else if d == 8 {
        '8'
    } else if d == 9 {
        '9'
    } else if d == 10 {
        'a'
    } else if d == 11 {
        'b'
    } else if d == 12 {
        'c'
    } else if d == 13 {
        'd'
    } else if d == 14 {
        'e'
    } else {
        'f'
    }
}

/// Escapes a text for use inside a JSON string literal.
pub fn escape_text(s: &str) -> (r: String)
    ensures
        r@ == escaped(s@),
{
    let n = s.unicode_len();
    let mut out = String::new();
    let mut i: usize = 0;
    while i < n
        invariant
            n == s@.len(),
            i <= n,
            out@ == escaped(s@.take(i as int)),
        decreases n - i,
    {
        let c = s.get_char(i);
        if c == '"' {
            out.append("\\\"");
        } else if c == '\\' {
            out.append("\\\\");
        } else if c == '\n' {
            out.append("\\n");
        } else if c == '\r' {
            out.append("\\r");
        } else if c == '\t' {
            out.append("\\t");
        } else if (c as u32) < 32 {
            out.append("\\u00");
            push_char(&mut out, hex_char_of((c as u32) / 16));
            push_char(&mut out, hex_char_of((c as u32) % 16));
        } else {
            push_char(&mut out, c);
        }
        proof {
            let pre = s@.take(i as int);
            let post = s@.take(i as int + 1);
            assert(post.drop_last() =~= pre);
            assert(post.last() == s@[i as int]);
            assert(out@ =~= escaped(post));
        }
        i = i + 1;
    }
    proof {
        assert(s@.take(n as int) =~= s@);
    }
    out
}

/// Renders a text as a JSON string literal, quotes included.
pub fn quote_text(s: &str) -> (r: String)
    ensures
        r@ == quoted(s@),
{
    let mut out = "\"".to_owned();
    let escapedpart = escape_text(s);
    out.append(escapedpart.as_str());
    out.append("\"");
    out
}

/// The wire shape of one action a button carries: its tag and its fields.
/// A completion is an internal event that never reaches a button; its shape
/// here is the JSON null, so that the encoding is total.
pub open spec fn spec_action_json(m: StateMessage) -> Seq<char> {
    match m {
        StateMessage::SubmitUrl => "{\"tag\":\"SubmitUrl\"}"@,
        StateMessage::UrlChange(t) => "{\"tag\":\"UrlChange\",\"text\":"@ + quoted(t@) + "}"@,
        StateMessage::LogMsg { index, msg } => "{\"tag\":\"ToggleDisplay\",\"index\":"@ + dec_seq(
            index as nat,
        ) + ",\"raw\":"@ + (match msg {
            Msg::Response(response::Msg::SwitchDisplay(DisplayType::Raw)) => "true"@,
            Msg::Response(response::Msg::SwitchDisplay(DisplayType::Rendered)) => "false"@,
        }) + "}"@,
        StateMessage::Response { .. } => "null"@,
    }
}

/// The wire shape of one display node.
pub open spec fn spec_node_json(t: ViewTree<StateMessage>) -> Seq<char>
    decreases t,
{
    match t {
        ViewTree::Text(s) => "{\"type\":\"text\",\"text\":"@ + quoted(s) + "}"@,
        ViewTree::Input { value } => "{\"type\":\"input\",\"value\":"@ + quoted(value) + "}"@,
        ViewTree::Button { label, action } => "{\"type\":\"button\",\"label\":"@ + quoted(label)
            + ",\"action\":"@ + spec_action_json(action) + "}"@,
        ViewTree::Container { class, children } => "{\"type\":\"container\",\"class\":"@ + quoted(
            class,
        ) + ",\"children\":["@ + spec_nodes_json(children) + "]}"@,
    }
}

/// The wire shape of a node list: the nodes in order, comma separated.
pub open spec fn spec_nodes_json(ts: Seq<ViewTree<StateMessage>>) -> Seq<char>
    decreases ts,
{
    if ts.len() == 0 {
        Seq::empty()
    } else if ts.len() == 1 {
        spec_node_json(ts[0])
    } else {
        spec_nodes_json(ts.drop_last()) + ","@ + spec_node_json(ts.last())
    }
}

/// The outbound snapshot envelope around one display tree.
pub open spec fn spec_snapshot_json(t: ViewTree<StateMessage>) -> Seq<char> {
    "{\"tree\":"@ + spec_node_json(t) + "}"@
}

/// Encodes one action as its wire shape.
fn encode_action(m: &StateMessage) -> (r: String)
    ensures
        r@ == spec_action_json(*m),
{
    match m {
        StateMessage::SubmitUrl => "{\"tag\":\"SubmitUrl\"}".to_owned(),
        StateMessage::UrlChange(t) => {
            let mut out = "{\"tag\":\"UrlChange\",\"text\":".to_owned();
            let q = quote_text(t.as_str());
            out.append(q.as_str());
            out.append("}");
            out
        },
        StateMessage::LogMsg { index, msg } => {
            let mut out = "{\"tag\":\"ToggleDisplay\",\"index\":".to_owned();
            let num = fmt_u64(*index as u64);
            out.append(num.as_str());
            out.append(",\"raw\":");
            match msg {
                Msg::Response(response::Msg::SwitchDisplay(DisplayType::Raw)) => {
                    out.append("true");
                },
                Msg::Response(response::Msg::SwitchDisplay(DisplayType::Rendered)) => {
                    out.append("false");
                },
            }
            out.append("}");
            out
        },
        StateMessage::Response { .. } => "null".to_owned(),
    }
}

/// Encodes one display node as its wire shape.
pub fn encode_node(t: &ViewNode<StateMessage>) -> (r: String)
    ensures
        r@ == spec_node_json(t@),
    decreases tree_size(t@),
{
    match t {
        ViewNode::Text(s) => {
            let mut out = "{\"type\":\"text\",\"text\":".to_owned();
            let q = quote_text(s.as_str());
            out.append(q.as_str());
            out.append("}");
            out
        },
        ViewNode::Input { value } => {
            let mut out = "{\"type\":\"input\",\"value\":".to_owned();
            let q = quote_text(value.as_str());
            out.append(q.as_str());
            out.append("}");
            out
        },
        ViewNode::Button { label, action } => {
            let mut out = "{\"type\":\"button\",\"label\":".to_owned();
            let q = quote_text(label.as_str());
            out.append(q.as_str());
            out.append(",\"action\":");
            let a = encode_action(action);
            out.append(a.as_str());
            out.append("}");
            out
        },
        ViewNode::Container { class, children } => {
            let mut out = "{\"type\":\"container\",\"class\":".to_owned();
            let q = quote_text(class.as_str());
            out.append(q.as_str());
            out.append(",\"children\":[");
            let ghost cs = view_trees(children@);
            let n = children.len();
            let mut k: usize = 0;
            while k < n
                invariant
                    n == children@.len(),
                    k <= n,
                    cs == view_trees(children@),
                    cs.len() == n,
                    tree_size(t@) == 1 + trees_size(cs),
                    out@ == "{\"type\":\"container\",\"class\":"@ + quoted(class@)
                        + ",\"children\":["@ + spec_nodes_json(cs.take(k as int)),
                decreases n - k,
            {
                if k > 0 {
                    out.append(",");
                }
                proof {
                    lemma_tree_size_le(cs, k as int);
                    assert(cs[k as int] == children@[k as int].view_tree());
                    assert(tree_size(children[k as int]@) < tree_size(t@));
                }
                let encoded = encode_node(&children[k]);
                out.append(encoded.as_str());
                proof {
                    let pre = cs.take(k as int);
                    let post = cs.take(k as int + 1);
                    assert(post.drop_last() =~= pre);
                    assert(post.last() == cs[k as int]);
                    assert(cs[k as int] == children@[k as int].view_tree());
                    assert(out@ =~= "{\"type\":\"container\",\"class\":"@ + quoted(class@)
                        + ",\"children\":["@ + spec_nodes_json(post));
                }
                k = k + 1;
            }
            out.append("]}");
            proof {
                assert(cs.take(n as int) =~= cs);
                assert(out@ =~= spec_node_json(t@));
            }
            out
        },
    }
}

/// Encodes the outbound snapshot envelope for one display tree.
pub fn encode_snapshot(t: &ViewNode<StateMessage>) -> (r: String)
    ensures
        r@ == spec_snapshot_json(t@),
{
    let mut out = "{\"tree\":".to_owned();
    let body = encode_node(t);
    out.append(body.as_str());
    out.append("}");
    out
}

/// Whether any of the offered subprotocol names is this one.  A connection
/// offering none of them is rejected before any action flows.
pub fn protocol_accepted(protocols: &Vec<String>) -> (r: bool)
    ensures
        r == exists|i: int| 0 <= i < protocols@.len() && protocols@[i]@ == "coap-browse"@,
{
    let target = "coap-browse".to_owned();
    let n = protocols.len();
    let mut k: usize = 0;
    while k < n
        invariant
            n == protocols@.len(),
            k <= n,
            target@ == "coap-browse"@,
            forall|j: int| 0 <= j < k ==> #[trigger] protocols@[j]@ != "coap-browse"@,
        decreases n - k,
    {
        if protocols[k].eq(&target) {
            return true;
        }
        k = k + 1;
    }
    false
}

} // verus!
