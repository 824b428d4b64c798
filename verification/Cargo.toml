[package]
name = "mecomp_tui"
version = "0.1.0"
edition = "2021"
publish = false

[dependencies]
anyhow = "=1.0.104"
clap = { version = "=4.6.7", features = ["derive"] }
clap_complete = { version = "=4.6.11", features = ["unstable-dynamic"] }
crossterm = { version = "=0.29.0", features = ["event-stream"] }
ratatui = "=0.30.2"
tokio = { version = "=1.54.1", features = ["sync", "rt-multi-thread", "macros", "signal", "time"] }
tokio-stream = "=0.1.19"
one-or-many = "=0.4.4"
tui-tree-widget = "=0.24.1"
tonic = "=0.14.9"
mecomp-core = "=0.7.3"
mecomp-prost = "=0.7.3"
mecomp-storage = { version = "=0.7.3", default-features = false }
