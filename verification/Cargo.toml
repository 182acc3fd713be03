[package]
name = "csv_sniff"
version = "0.1.0"
edition = "2021"
publish = false

[dependencies]
qsv-sniffer = "*"
csv = "*"
url = "*"
thousands = "*"
tabwriter = "*"
reqwest = { version = "*", default-features = false, features = ["blocking", "rustls-tls"] }
tempfile = "*"
chrono = "*"
serde = { version = "*", features = ["derive"] }
serde_json = "*"
indicatif = "*"
