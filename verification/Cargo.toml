[package]
name = "wlb"
version = "0.1.0"
edition = "2021"
publish = false

[dependencies]
byteorder = "1"
clap = "2"
rlua = "*"
serde = { version = "1", features = ["derive"] }
winapi = { version = "0.3", features = ["errhandlingapi", "libloaderapi", "minwindef", "processthreadsapi", "psapi", "winbase", "winnt"] }
