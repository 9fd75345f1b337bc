[package]
name = "xmltv2rss"
version = "0.1.0"
edition = "2021"
publish = false

[dependencies]
atom_syndication = "*"
chrono = "0.4"
clap = { version = "*", features = ["derive"] }
quick-xml = { version = "*", features = ["serialize"] }
rss = "*"
xmltv = "*"
