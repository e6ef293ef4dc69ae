[package]
name = "tactilis"
version = "0.1.0"
edition = "2021"
publish = false

[dependencies]
chrono = { version = "0.4", default-features = false, features = ["std", "now", "serde"] }
ctrlc = "3"
eframe = { version = "*", default-features = false, features = ["default_fonts", "glow", "x11"] }
egui = { version = "*", default-features = false }
egui_plot = { version = "*", default-features = false }
futures-util = { version = "0.3", default-features = false, features = ["std", "sink"] }
serde = { version = "1", features = ["derive"] }
serde_json = "1"
serial2 = "*"
serialport = { version = "4", default-features = false }
thiserror = "*"
tokio = { version = "1", features = ["macros", "net", "rt-multi-thread", "sync", "time"] }
tokio-tungstenite = "*"
tracing = "0.1"
tracing-subscriber = { version = "0.3", features = ["env-filter"] }
