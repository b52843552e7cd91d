[package]
name = "screenrec"
version = "0.1.0"
edition = "2021"
publish = false

[dependencies]
anyhow = "=1.0.104"
clap = { version = "=4.6.7", features = ["derive"] }
cpal = "=0.15.3"
ctrlc = "=3.5.2"
hound = "=3.5.1"
windows-capture = "=2.0.1"
