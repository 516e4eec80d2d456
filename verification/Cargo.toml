[package]
name = "filo_clipboard"
version = "0.1.0"
edition = "2021"
publish = false

[dependencies]
clipboard-win = "*"
winapi = { version = "0.3", features = ["winuser", "libloaderapi", "synchapi", "errhandlingapi", "windef", "minwindef"] }
