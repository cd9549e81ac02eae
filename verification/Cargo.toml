[package]
name = "verge_core"
version = "0.1.0"
edition = "2021"
publish = false

[dependencies]
anyhow = "=1.0.104"
boa_engine = "=0.22.0"
futures = "=0.3.34"
libc = "=0.2.191"
log = "=0.4.34"
once_cell = "=1.21.4"
parking_lot = "=0.12.5"
serde_json = "=1.0.154"
serde_yaml_ng = "=0.10.0"
tokio = { version = "=1.54.1", features = ["sync", "time", "process", "rt", "rt-multi-thread"] }
winapi = { version = "0.3", features = ["handleapi", "minwindef", "processthreadsapi", "securitybaseapi", "tlhelp32", "winnt"] }
