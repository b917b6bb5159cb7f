[package]
name = "summarizer"
version = "0.1.0"
edition = "2021"
publish = false

[dependencies]
actix-web = { version = "=4.18.1", default-features = false, features = ["macros"] }
kstring = "=2.0.2"
rust-bert = "0.21"
serde = { version = "1", features = ["derive"] }
tch = "0.13"
tokenizers = { version = "=0.13.4", default-features = false, features = ["onig", "esaxx_fast"] }
tract-onnx = "=0.19.16"
