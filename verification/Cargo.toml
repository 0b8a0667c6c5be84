[package]
name = "trinity"
version = "0.1.0"
edition = "2021"
publish = false

[dependencies]
anyhow = "1"
directories = "*"
dirs = "*"
dotenvy = "*"
futures = "0.3"
notify = "*"
redb = "*"
serde = { version = "1", features = ["derive"] }
signal-hook = "*"
signal-hook-tokio = { version = "*", features = ["futures-v0_3"] }
tokio = { version = "1", features = ["rt-multi-thread", "macros", "sync", "time", "net", "io-util", "io-std"] }
tokio-stream = "*"
tokio-util = { version = "*", features = ["codec"] }
toml = "*"
tracing = "0.1"
tracing-subscriber = "*"
wasmtime = { version = "=45.0.3", default-features = false, features = ["cranelift", "component-model", "runtime", "std"] }
