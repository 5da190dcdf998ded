[package]
name = "iocp"
version = "0.1.0"
edition = "2021"
publish = false

[dependencies]
winapi = { version = "=0.3.9", features = ["minwindef", "winerror", "errhandlingapi", "handleapi", "ioapiset", "winbase", "winnt", "minwinbase", "fileapi", "namedpipeapi", "ntdef"] }
windows-sys = { version = "=0.52.0", features = ["Win32_Foundation", "Win32_System_IO", "Win32_Storage_FileSystem", "Win32_System_Pipes", "Win32_Networking_WinSock", "Win32_Security", "Win32_System_Threading"] }
parking_lot = "=0.12.5"
pin-project = "=1.1.13"
tracing = "=0.1.44"
tokio = { version = "=1.54.1", default-features = false }
