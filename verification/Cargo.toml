[package]
name = "redis_fs"
version = "0.1.0"
edition = "2021"
publish = false

[dependencies]
anyhow = "*"
bytes = "*"
clap = { version = "*", features = ["derive"] }
dashmap = "*"
env_logger = "*"
fuse3 = { version = "*", features = ["tokio-runtime", "unprivileged"] }
futures-util = "*"
libc = "*"
log = "*"
redis = { version = "*", features = ["tokio-comp"] }
tokio = { version = "*", features = ["macros", "rt-multi-thread", "signal"] }
