[package]
name = "otty_i18n"
version = "0.1.0"
edition = "2021"
publish = false

[dependencies]
serde = { version = "=1.0.229", features = ["derive"] }
serde_json = "=1.0.154"
sys-locale = "=0.3.2"
thiserror = "=2.0.21"
iced_core = "=0.14.0"
objc2-app-kit = { version = "=0.3.2", default-features = false, features = ["std", "NSPasteboard"] }
objc2-foundation = { version = "=0.3.2", default-features = false, features = ["std", "NSString", "NSURL"] }
