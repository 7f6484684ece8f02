//! The payload decoder: dispatch by content-format code, totality, the raw
//! byte dump, the format description line, and the duplicate-option policy.

use coap_browse::{decode, effective_format, fmt_u64, format_line, render_raw_payload};

#[test]
fn decode_plain_text_lossy() {
    let out = decode(Some(0), &b"hello".to_vec());
    assert_eq!(out, "hello");
}

#[test]
fn decode_plain_text_replaces_invalid_utf8() {
    let out = decode(Some(0), &vec![0xff, 0xfe]);
    assert_eq!(out, "\u{fffd}\u{fffd}");
}

#[test]
fn decode_link_format_verbatim() {
    let out = decode(Some(40), &b"</sensors>;rt=\"x\"".to_vec());
    assert_eq!(out, "</sensors>;rt=\"x\"");
}

#[test]
fn decode_json_pretty_prints() {
    let out = decode(Some(50), &b"{\"a\":1}".to_vec());
    assert_eq!(out, "{\n  \"a\": 1\n}");
}

#[test]
fn decode_json_failure_degrades_to_description() {
    let payload = b"{".to_vec();
    let out = decode(Some(50), &payload);
    assert!(!out.is_empty());
    assert_ne!(out.as_bytes(), &payload[..]);
    assert!(out.contains("EOF"));
}

#[test]
fn decode_cbor_diagnostic_notation() {
    let out = decode(Some(60), &vec![0x01]);
    assert_eq!(out, "1");
}

#[test]
fn decode_cbor_failure_degrades_to_description() {
    let out = decode(Some(60), &vec![0xff]);
    assert!(!out.is_empty());
    assert_ne!(out, "\u{ff}".to_string());
}

#[test]
fn decode_xml_renders_structure() {
    let out = decode(Some(41), &b"<a>hi</a>".to_vec());
    assert!(out.contains("hi"));
    assert_ne!(out, "<a>hi</a>");
}

#[test]
fn decode_xml_failure_degrades_to_description() {
    let out = decode(Some(41), &b"<a>".to_vec());
    assert!(!out.is_empty());
}

#[test]
fn decode_unrecognized_code_dumps_bytes() {
    let out = decode(Some(1234), &vec![1, 2]);
    assert_eq!(out, "[\n    1,\n    2,\n]");
}

#[test]
fn decode_absent_code_dumps_bytes() {
    let out = decode(None, &b"hello".to_vec());
    assert_eq!(out, "[\n    104,\n    101,\n    108,\n    108,\n    111,\n]");
}

#[test]
fn decode_is_total_for_every_code_and_payload() {
    let codes: Vec<Option<u16>> = vec![
        None,
        Some(0),
        Some(40),
        Some(41),
        Some(50),
        Some(60),
        Some(7),
        Some(65535),
    ];
    let payloads: Vec<Vec<u8>> = vec![
        vec![],
        b"hello".to_vec(),
        vec![0xff, 0x00, 0x80],
        b"{\"a\":1}".to_vec(),
        vec![0x01],
        b"<a/>".to_vec(),
    ];
    for code in &codes {
        for payload in &payloads {
            let _out: String = decode(*code, payload);
        }
    }
}

#[test]
fn format_line_names_recognized_codes() {
    assert_eq!(format_line(Some(0)), "content format: text/plain; charset=utf-8");
    assert_eq!(format_line(Some(40)), "content format: application/link-format");
    assert_eq!(format_line(Some(41)), "content format: application/xml");
    assert_eq!(format_line(Some(50)), "content format: application/json");
    assert_eq!(format_line(Some(60)), "content format: application/cbor");
}

#[test]
fn format_line_shows_raw_unrecognized_code() {
    assert_eq!(format_line(Some(1234)), "content format: 1234");
}

#[test]
fn format_line_absent_code() {
    assert_eq!(format_line(None), "unspecified content format");
}

#[test]
fn effective_format_single_occurrence() {
    assert_eq!(effective_format(&vec![50]), (Some(50), false));
}

#[test]
fn effective_format_absent() {
    assert_eq!(effective_format(&vec![]), (None, false));
}

#[test]
fn effective_format_duplicates_degrade_to_absent() {
    assert_eq!(effective_format(&vec![50, 50]), (None, true));
    assert_eq!(effective_format(&vec![0, 60]), (None, true));
}

#[test]
fn raw_dump_of_empty_payload() {
    assert_eq!(render_raw_payload(&vec![]), "[]");
}

#[test]
fn raw_dump_of_bytes() {
    assert_eq!(render_raw_payload(&vec![0, 255]), "[\n    0,\n    255,\n]");
}

#[test]
fn decimal_rendering() {
    assert_eq!(fmt_u64(0), "0");
    assert_eq!(fmt_u64(7), "7");
    assert_eq!(fmt_u64(10), "10");
    assert_eq!(fmt_u64(105), "105");
    assert_eq!(fmt_u64(u64::MAX), "18446744073709551615");
}
