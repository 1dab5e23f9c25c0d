[package]
name = "wayshot"
version = "0.1.0"
edition = "2021"
publish = false

[dependencies]
gtk4 = { version = "=0.11.5", features = ["v4_12"] }
libadwaita = { version = "=0.9.2", features = ["v1_4"] }
gdk-pixbuf = "=0.22.0"
ashpd = { version = "=0.13.13", features = ["screenshot"] }
tokio = { version = "=1.54.1", features = ["rt-multi-thread", "time"] }
