[package]
name = "hana_clerestory"
version = "0.1.0"
edition = "2021"
publish = false

[dependencies]
bevy = { version = "=0.19.1", default-features = false, features = ["std", "bevy_window", "bevy_winit", "x11"] }
dirs = "6"
objc2 = "0.6"
objc2-app-kit = { version = "0.3", default-features = false, features = ["std", "NSResponder", "NSScreen", "NSView", "NSWindow"] }
objc2-foundation = { version = "0.3", default-features = false, features = ["std", "NSArray", "NSDictionary", "NSString", "NSValue"] }
raw-window-handle = "0.6"
ron = "0.12"
serde = { version = "1", features = ["derive"] }
winit = { version = "0.30", default-features = false, features = ["x11", "rwh_06"] }
x11rb = { version = "0.13", features = ["allow-unsafe-code", "dl-libxcb", "randr"] }
