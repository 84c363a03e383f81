[package]
name = "playwire"
version = "1.0.0"
edition = "2021"
publish = false

[dependencies]
zbus = "5"
zvariant = "5"
block2 = "0.6"
objc2 = "0.6"
objc2-foundation = "0.3"
objc2-app-kit = "0.3"
objc2-media-player = "0.3"
windows = { version = "0.62", default-features = false, features = ["Foundation", "Media", "Storage_Streams", "Win32_Foundation", "Win32_System_WinRT"] }
