[package]
name = "wintrap"
version = "0.1.0"
edition = "2021"
publish = false

[dependencies]
winapi = { version = "0.3", features = ["consoleapi", "errhandlingapi", "libloaderapi", "minwindef", "ntdef", "processthreadsapi", "winbase", "wincon", "windef", "winerror", "winuser"] }
