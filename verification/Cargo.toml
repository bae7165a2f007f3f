[package]
name = "gideon"
version = "0.1.0"
edition = "2021"
publish = false

[dependencies]
borsh = { version = "1.5", features = ["derive"] }
shank = "0.4"
solana-program = "1.18"
spl-associated-token-account = { version = "3.0", features = ["no-entrypoint"] }
spl-token-2022 = { version = "3.0", features = ["no-entrypoint"] }
spl-token-metadata-interface = "0.3"
thiserror = "1.0"
