[package]
name = "aviutl2_alias_inserter"
version = "0.1.0"
edition = "2021"
publish = false

[dependencies]
aviutl2 = "=0.52.1"
tracing = "=0.1.44"
windows = { version = "=0.59.0", features = ["Win32_Foundation", "Win32_Security", "Win32_Security_Authorization", "Win32_Storage_FileSystem", "Win32_System_IO", "Win32_System_Pipes", "Win32_System_Threading"] }
windows-core = "=0.59.0"
