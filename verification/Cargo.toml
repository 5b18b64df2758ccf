[package]
name = "mail_sender"
version = "0.1.0"
edition = "2021"
publish = false

[dependencies]
lettre = { version = "*", default-features = false, features = ["builder", "smtp-transport", "rustls-tls"] }
mime_guess = "*"
ron = "*"
serde = { version = "*", features = ["derive"] }
