[package]
name = "memprobe"
version = "0.1.0"
edition = "2021"
publish = false

[dependencies]
winapi = { version = "0.3", features = ["fileapi", "handleapi", "ioapiset", "tlhelp32", "processthreadsapi", "winnt", "errhandlingapi", "minwindef"] }
