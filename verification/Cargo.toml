[package]
name = "mcp_bridge"
version = "0.1.0"
edition = "2021"
publish = false

[dependencies]
base64 = "=0.22.1"
block2 = { version = "0.6.2", default-features = false, features = ["std"] }
futures-util = "=0.3.34"
image = { version = "=0.25.10", default-features = false, features = ["png", "jpeg"] }
objc2 = { version = "=0.6.5", default-features = false, features = ["std"] }
objc2-foundation = { version = "=0.3.2", default-features = false, features = ["std", "NSData", "NSDate", "NSError", "NSRunLoop", "NSString"] }
objc2-ui-kit = { version = "=0.3.2", default-features = false, features = ["std", "UIImage"] }
objc2-web-kit = { version = "=0.3.2", default-features = false, features = ["std", "WKSnapshotConfiguration"] }
serde = { version = "=1.0.229", features = ["derive"] }
serde_json = "=1.0.154"
tauri = { version = "=2.12.5", default-features = false }
thiserror = "=2.0.21"
tokio = { version = "=1.54.1", features = ["net", "sync", "rt", "macros"] }
tokio-tungstenite = "=0.30.0"
