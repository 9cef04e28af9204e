[package]
name = "calendar_rsvp"
version = "0.1.0"
edition = "2021"
publish = false

[dependencies]
anyhow = "*"
base64 = "*"
chrono = "*"
exitcode = "*"
google-calendar3 = "*"
hyper = "*"
hyper-rustls = "*"
mailparse = "*"
serde_json = "*"
tokio = { version = "*", features = ["full"] }
xdg = "*"
yup-oauth2 = "*"
