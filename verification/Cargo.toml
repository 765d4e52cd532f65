[package]
name = "ashpd"
version = "0.1.0"
edition = "2021"
publish = false

[dependencies]
futures = "=0.3.34"
pipewire = "=0.10.1"
serde = { version = "=1.0.229", features = ["derive"] }
serde_repr = "=0.1.21"
tracing = "=0.1.44"
url = { version = "=2.5.8", features = ["serde"] }
zbus = { version = "=3.15.2", features = ["url"] }
zvariant = { version = "=3.15.2", features = ["url"] }

[dev-dependencies]
serde_json = "=1.0.154"
