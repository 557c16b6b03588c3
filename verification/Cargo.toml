[package]
name = "transprot"
version = "0.1.0"
edition = "2021"
publish = false

[dependencies]
bytes = "1"
rand = "*"
tokio = { version = "1", features = ["full"] }
openh264 = "*"
stun = "*"
windows-capture = "*"
