[package]
name = "ocmapi"
version = "0.1.0"
edition = "2021"
publish = false

[dependencies]
actix-web = { version = "4", features = ["rustls-0_23"] }
actix-session = { version = "*", features = ["cookie-session"] }
actix-web-httpauth = "*"
argh = "*"
bcrypt-pbkdf = "*"
chrono = "0.4"
config-file = "*"
constant_time_eq = "*"
fake-tty = "*"
gethostname = "*"
include_dir = "*"
port_check = "*"
rand = "*"
regex = "1"
rustls = "0.23"
rustls-pki-types = "*"
serde = { version = "1", features = ["derive"] }
serde_json = "1"
