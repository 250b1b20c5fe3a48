[package]
name = "asyncgit"
version = "0.1.0"
edition = "2021"
publish = false

[dependencies]
anyhow = "=1.0.104"
crossbeam-channel = "=0.5.17"
crossterm = "=0.29.0"
git2 = "=0.21.0"
gix = { version = "=0.90.0", default-features = false, features = ["sha1", "status"] }
log = "=0.4.34"
ratatui = "=0.30.2"
rayon-core = "=1.13.0"
scopetime = "=0.1.2"
thiserror = "=2.0.21"
