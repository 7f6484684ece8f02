//! The content-format driven payload decoder: numeric format code plus raw
//! bytes in, display string out, total for every input.  The individual
//! format parsers are outside codec libraries reached through trusted
//! wrappers; only the dispatch policy is this module's own logic.

use vstd::prelude::*;
use vstd::string::*;

use crate::decimal::{dec_seq, fmt_u64};

verus! {

/// The named members of the content-format registry that the decoder
/// distinguishes, plus an open bucket for any other code.
pub enum FormatCode {
    PlainText,
    LinkFormat,
    Xml,
    Json,
    Cbor,
    Other(u16),
}

/// The classification of a numeric content-format code.
pub open spec fn spec_from_code(code: u16) -> FormatCode {
    if code == 0 {
        FormatCode::PlainText
    } else if code == 40 {
        FormatCode::LinkFormat
    } else if code == 41 {
        FormatCode::Xml
    } else if code == 50 {
        FormatCode::Json
    } else if code == 60 {
        FormatCode::Cbor
    } else {
        FormatCode::Other(code)
    }
}

impl FormatCode {
    /// Classifies a numeric content-format code.
    pub fn from_code(code: u16) -> (r: FormatCode)
        ensures
            r == spec_from_code(code),
    {
        if code == 0 {
            FormatCode::PlainText
        } else if code == 40 {
            FormatCode::LinkFormat
        } else if code == 41 {
            FormatCode::Xml
        } else if code == 50 {
            FormatCode::Json
        } else if code == 60 {
            FormatCode::Cbor
        } else {
            FormatCode::Other(code)
        }
    }
}

/// What the lossy text decoding displays for the given bytes.
pub uninterp spec fn lossy_text(bytes: Seq<u8>) -> Seq<char>;

/// What the JSON pipeline displays for the given bytes: the parsed document
/// pretty-printed, or the parse error's description.
pub uninterp spec fn json_rendered(bytes: Seq<u8>) -> Seq<char>;

/// What the CBOR pipeline displays for the given bytes: the parsed item in
/// diagnostic notation, or the parse error's description.
pub uninterp spec fn cbor_rendered(bytes: Seq<u8>) -> Seq<char>;

/// What the XML pipeline displays for the given bytes: the parsed element
/// structure, or the decode or parse error's description.
pub uninterp spec fn xml_rendered(bytes: Seq<u8>) -> Seq<char>;

/// Relies on String::from_utf8_lossy: decodes the bytes as UTF-8, replacing
/// invalid sequences with the replacement character.  The result depends on
/// the bytes alone; no byte sequence makes it fail.
#[verifier::external_body]
fn lossy_utf8(payload: &Vec<u8>) -> (r: String)
    ensures
        r@ == lossy_text(payload@),
        payload@.len() == 0 ==> r@.len() == 0,
{
    String::from_utf8_lossy(payload).into_owned()
}

/// Relies on serde_json::from_slice and serde_json::to_string_pretty:
/// parses the bytes as one JSON document and pretty-prints it with
/// indentation; a failure of either step is rendered as the error's
/// description.  The result depends on the bytes alone.
#[verifier::external_body]
fn json_pipeline(payload: &Vec<u8>) -> (r: String)
    ensures
        r@ == json_rendered(payload@),
{
    serde_json::from_slice::<serde_json::Value>(payload)
        .and_then(|p| serde_json::to_string_pretty(&p))
        .unwrap_or_else(|e| format!("{:?}", e))
}

/// Relies on cbor_diag::parse_bytes and cbor_diag::DataItem::to_diag_pretty:
/// parses the bytes as one CBOR item and renders it in diagnostic notation;
/// a parse failure is rendered as the error's description.  The result
/// depends on the bytes alone.
#[verifier::external_body]
fn cbor_pipeline(payload: &Vec<u8>) -> (r: String)
    ensures
        r@ == cbor_rendered(payload@),
{
    cbor_diag::parse_bytes(payload)
        .map(|p| p.to_diag_pretty())
        .unwrap_or_else(|e| format!("{:?}", e))
}

/// Relies on str::from_utf8 and serde_xml::from_str: decodes the bytes as
/// UTF-8, parses them as an XML document and renders the element structure;
/// a decode or parse failure is rendered as the error's description.  The
/// result depends on the bytes alone.
#[verifier::external_body]
fn xml_pipeline(payload: &Vec<u8>) -> (r: String)
    ensures
        r@ == xml_rendered(payload@),
{
    std::str::from_utf8(payload)
        .map_err(|e| format!("{:#?}", e))
        .and_then(|p| {
            serde_xml::from_str::<serde_xml::value::Element>(p).map_err(|e| format!("{:#?}", e))
        })
        .map(|p| format!("{:#?}", p))
        .unwrap_or_else(|e| e)
}

/// One line of the raw byte dump: an indented decimal byte and a trailing
/// comma.
pub open spec fn raw_line(b: u8) -> Seq<char> {
    "    "@ + dec_seq(b as nat) + ",\n"@
}

/// The lines of the raw byte dump, one per byte, in order.
pub open spec fn raw_dump_body(bytes: Seq<u8>) -> Seq<char>
    decreases bytes.len(),
{
    if bytes.len() == 0 {
        Seq::empty()
    } else {
        raw_dump_body(bytes.drop_last()) + raw_line(bytes.last())
    }
}

/// The raw byte dump: every byte on its own indented line, in decimal,
/// bracketed; an empty payload dumps as an empty pair of brackets.
pub open spec fn raw_dump(bytes: Seq<u8>) -> Seq<char> {
    if bytes.len() == 0 {
        "[]"@
    } else {
        "[\n"@ + raw_dump_body(bytes) + "]"@
    }
}

/// Renders the payload as a raw byte dump.
pub fn render_raw_payload(payload: &Vec<u8>) -> (r: String)
    ensures
        r@ == raw_dump(payload@),
{
    if payload.len() == 0 {
        let r = "[]".to_owned();
        return r;
    }
    let mut s = "[\n".to_owned();
    let mut i: usize = 0;
    while i < payload.len()
        invariant
            i <= payload.len(),
            s@ == "[\n"@ + raw_dump_body(payload@.take(i as int)),
        decreases payload.len() - i,
    {
        let line = fmt_u64(payload[i] as u64);
        s.append("    ");
        s.append(line.as_str());
        s.append(",\n");
        proof {
            let pre = payload@.take(i as int);
            let post = payload@.take(i as int + 1);
            assert(post.drop_last() =~= pre);
            assert(post.last() == payload@[i as int]);
            assert(raw_dump_body(post) == raw_dump_body(pre) + raw_line(payload@[i as int]));
            assert(s@ =~= "[\n"@ + raw_dump_body(post));
        }
        i = i + 1;
    }
    s.append("]");
    proof {
        assert(payload@.take(payload@.len() as int) =~= payload@);
        assert(s@ =~= raw_dump(payload@));
    }
    s
}

/// What `decode` displays: the treatment selected by the effective
/// content-format code, with the raw byte dump as the default for an absent
/// or unrecognized code.
pub open spec fn spec_decode(code: Option<u16>, payload: Seq<u8>) -> Seq<char> {
    match code {
        Option::Some(c) => match spec_from_code(c) {
            FormatCode::PlainText => lossy_text(payload),
            FormatCode::LinkFormat => lossy_text(payload),
            FormatCode::Xml => xml_rendered(payload),
            FormatCode::Json => json_rendered(payload),
            FormatCode::Cbor => cbor_rendered(payload),
            FormatCode::Other(_) => raw_dump(payload),
        },
        Option::None => raw_dump(payload),
    }
}

/// Decodes a payload under the given effective content-format code.  Total:
/// every code and every byte sequence yields a display string; parse
/// failures degrade to an in-band error description inside the outside
/// pipelines, never to a failure of this function.
pub fn decode(code: Option<u16>, payload: &Vec<u8>) -> (r: String)
    ensures
        r@ == spec_decode(code, payload@),
{
    match code {
        Option::Some(c) => match FormatCode::from_code(c) {
            FormatCode::PlainText => lossy_utf8(payload),
            FormatCode::LinkFormat => lossy_utf8(payload),
            FormatCode::Xml => xml_pipeline(payload),
            FormatCode::Json => json_pipeline(payload),
            FormatCode::Cbor => cbor_pipeline(payload),
            FormatCode::Other(_) => render_raw_payload(payload),
        },
        Option::None => render_raw_payload(payload),
    }
}

/// The effective content-format of a message, from the occurrences of the
/// option: present exactly once it is that value; absent it is none; present
/// more than once (illegal per protocol) it degrades to none, and the second
/// component flags that a diagnostic is owed.
pub open spec fn spec_effective_format(occurrences: Seq<u16>) -> (Option<u16>, bool) {
    if occurrences.len() == 1 {
        (Option::Some(occurrences[0]), false)
    } else if occurrences.len() == 0 {
        (Option::None, false)
    } else {
        (Option::None, true)
    }
}

/// Resolves the effective content-format code from the option occurrences.
pub fn effective_format(occurrences: &Vec<u16>) -> (r: (Option<u16>, bool))
    ensures
        r == spec_effective_format(occurrences@),
{
    if occurrences.len() == 1 {
        (Option::Some(occurrences[0]), false)
    } else if occurrences.len() == 0 {
        (Option::None, false)
    } else {
        (Option::None, true)
    }
}

/// The MIME-style display name of a recognized content-format code.
pub open spec fn spec_mime_name(f: FormatCode) -> Option<Seq<char>> {
    match f {
        FormatCode::PlainText => Option::Some("text/plain; charset=utf-8"@),
        FormatCode::LinkFormat => Option::Some("application/link-format"@),
        FormatCode::Xml => Option::Some("application/xml"@),
        FormatCode::Json => Option::Some("application/json"@),
        FormatCode::Cbor => Option::Some("application/cbor"@),
        FormatCode::Other(_) => Option::None,
    }
}

/// Looks up the MIME-style display name of a recognized code.
pub fn mime_name(f: &FormatCode) -> (r: Option<&'static str>)
    ensures
        match r {
            Option::Some(s) => spec_mime_name(*f) == Option::Some(s@),
            Option::None => spec_mime_name(*f) is None,
        },
{
    match f {
        FormatCode::PlainText => Option::Some("text/plain; charset=utf-8"),
        FormatCode::LinkFormat => Option::Some("application/link-format"),
        FormatCode::Xml => Option::Some("application/xml"),
        FormatCode::Json => Option::Some("application/json"),
        FormatCode::Cbor => Option::Some("application/cbor"),
        FormatCode::Other(_) => Option::None,
    }
}

/// The content-format description line: the MIME-style name of a recognized
/// code, the raw numeric value of an unrecognized one, and a fixed phrase
/// for an absent code.
pub open spec fn spec_format_line(code: Option<u16>) -> Seq<char> {
    match code {
        Option::Some(c) => match spec_mime_name(spec_from_code(c)) {
            Option::Some(name) => "content format: "@ + name,
            Option::None => "content format: "@ + dec_seq(c as nat),
        },
        Option::None => "unspecified content format"@,
    }
}

/// Renders the content-format description line for the given effective code.
pub fn format_line(code: Option<u16>) -> (r: String)
    ensures
        r@ == spec_format_line(code),
{
    match code {
        Option::Some(c) => {
            let mut s = "content format: ".to_owned();
            match mime_name(&FormatCode::from_code(c)) {
                Option::Some(name) => {
                    s.append(name);
                },
                Option::None => {
                    let num = fmt_u64(c as u64);
                    s.append(num.as_str());
                },
            }
            s
        },
        Option::None => "unspecified content format".to_owned(),
    }
}

} // verus!
