[package]
name = "inkwell_core"
version = "0.1.0"
edition = "2021"
publish = false

[dependencies]
llvm-sys = { version = "*", default-features = false, features = ["no-llvm-linking", "disable-alltargets-init"] }
