[package]
name = "coap_browse"
version = "0.1.0"
edition = "2021"
publish = false

[dependencies]
serde = "*"
serde_derive = "*"
serde_json = "*"
serde_cbor = "*"
serde_xml = "*"
cbor-diag = "*"
xmltree = "*"
tokio-coap = "*"
tokio-core = "*"
websocket = "*"
futures = "0.1"
