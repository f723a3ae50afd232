[package]
name = "bento"
version = "0.1.0"
edition = "2021"
publish = false

[dependencies]
nix = { version = "*", features = ["mount", "sched", "signal", "user", "process", "socket", "hostname", "fs"] }
capctl = "*"
seccompiler = "*"
cgroups-rs = "*"
lddtree = "*"
clap = { version = "*", features = ["derive"] }
eyre = "*"
color-eyre = "*"
tracing = "*"
tracing-subscriber = { version = "*", features = ["env-filter"] }
tracing-error = "*"
