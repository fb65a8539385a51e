[package]
name = "proc_guard"
version = "0.1.0"
edition = "2021"
publish = false

[dependencies]
child_wait_timeout = "*"
libc = "*"
thiserror = "*"
winapi = { version = "0.3", features = ["errhandlingapi", "wincon"] }
