[package]
name = "typed_accounts"
version = "0.1.0"
edition = "2021"
publish = false

[dependencies]
borsh = "0.10"
bytemuck = { version = "1", features = ["derive"] }
num_enum = "0.7"
pinocchio = "0.8"
pinocchio-system = "0.2"
solana-program = "*"
spl-associated-token-account = "*"
spl-token = "*"
thiserror = "*"
