[package]
name = "zoom-sync"
version = "0.1.0"
edition = "2021"
publish = false

[dependencies]
hidapi = { version = "2.6", default-features = false, features = ["linux-native-basic-udev"] }
chrono = "0.4"
bpaf = { version = "0.9", features = ["derive"] }
either = "1"
ipinfo = "3"
nvml-wrapper = "0.10"
open-meteo-api = "0.1"
sysinfo = "0.32"
thiserror = "1"
tokio = { version = "1", features = ["macros", "rt-multi-thread", "time"] }
