[package]
name = "im_switch"
version = "0.1.0"
edition = "2021"
publish = false

[dependencies]
clap = { version = "4", features = ["derive"] }
objc2 = "0.5"
objc2-app-kit = { version = "0.2", features = ["NSResponder", "NSText", "NSTextInputContext", "NSTextView", "NSView"] }
objc2-foundation = { version = "0.2", features = ["NSString"] }
windows = { version = "0.58", features = ["Win32_Foundation", "Win32_UI_Input_Ime", "Win32_UI_WindowsAndMessaging"] }
