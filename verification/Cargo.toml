[package]
name = "movie_review"
version = "0.1.0"
edition = "2021"
publish = false

[dependencies]
borsh = { version = "1", features = ["derive"] }
solana-program = "2"
