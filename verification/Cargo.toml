[package]
name = "cs_trigger"
version = "0.1.0"
edition = "2021"
publish = false

[dependencies]
serde = { version = "1", features = ["derive"] }
serde_json = "1"
reqwest = { version = "0.11", default-features = false, features = ["rustls-tls"] }
tokio = { version = "1", features = ["macros", "rt-multi-thread", "time"] }
sysinfo = "0.29"
winapi = { version = "0.3", features = ["minwindef", "winnt", "processthreadsapi", "ntdef", "handleapi", "memoryapi", "psapi", "tlhelp32", "winuser"] }
