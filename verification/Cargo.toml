[package]
name = "media_blocker"
version = "0.1.0"
edition = "2021"
publish = false

[dependencies]
anyhow = "1"
async-std = "1"
directories = "*"
futures = "0.3"
gtk = "0.18"
image = { version = "*", default-features = false, features = ["png"] }
log = "0.4"
simplelog = "0.12"
tao = "*"
tray-icon = "*"
zbus = "5"
zvariant = "5"
