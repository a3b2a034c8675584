[package]
name = "zephpost"
version = "0.1.0"
edition = "2021"
publish = false

[dependencies]
bpaf = { version = "*", features = ["derive"] }
sysexits = "*"
thiserror = "*"
tokio = { version = "1", features = ["io-util", "macros", "net", "rt-multi-thread"] }
