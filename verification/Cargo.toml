[package]
name = "flake_gcroots"
version = "0.1.0"
edition = "2021"
publish = false

[dependencies]
chrono-humanize = "*"
clap = { version = "*", features = ["derive"] }
color-eyre = "*"
diff = "*"
dirs = "*"
fs-err = "*"
humantime = "*"
iddqd = "*"
itertools = "*"
nix = { version = "*", features = ["signal"] }
nix-editor = "*"
owo-colors = "*"
regex = "*"
serde = { version = "*", features = ["derive"] }
serde_json = "*"
sonic-rs = "*"
strum = { version = "*", features = ["derive"] }
