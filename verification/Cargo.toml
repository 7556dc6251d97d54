[package]
name = "csv_rdf"
version = "0.1.0"
edition = "2021"
publish = false

[dependencies]
chardetng = "=0.1.17"
csv = "=1.4.0"
encoding_rs = "=0.8.42"
hex = "=0.4.3"
sha1 = "=0.10.7"
terminus-store = "=0.19.11"
urlencoding = "=2.1.3"
