[package]
name = "quickbooks_sheets_sync"
version = "0.1.0"
edition = "2021"
publish = false

[dependencies]
anyhow = "1"
log = "0.4"
env_logger = "0.11"
figment = { version = "0.10", features = ["toml", "env"] }
serde = { version = "1", features = ["derive"] }
reqwest = { version = "0.12", default-features = false, features = ["json", "rustls-tls"] }
tokio = { version = "1", features = ["rt-multi-thread", "macros"] }
winapi = { version = "0.3", features = ["combaseapi", "objbase", "oaidl", "oleauto", "wtypes", "wtypesbase", "guiddef", "winerror", "unknwnbase"] }
widestring = "1"
