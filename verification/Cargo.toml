[package]
name = "decl"
version = "0.1.0"
edition = "2021"
publish = false

[dependencies]
object = { version = "*", features = ["write"] }
serde_json = "*"
proc-macro2 = "*"
quote = "*"
syn = { version = "*", features = ["full"] }
