[package]
name = "kptemp"
version = "0.1.0"
edition = "2021"
publish = false

[dependencies]
walkdir = "=2.5.0"
chrono = "=0.4.45"
pretty-bytes = "=0.2.2"
winapi = { version = "=0.3.9", features = ["winuser", "shellapi", "winbase", "winerror", "reason", "windef", "minwindef", "winnt", "processthreadsapi", "securitybaseapi", "handleapi"] }
