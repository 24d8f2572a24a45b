[package]
name = "email_loop"
version = "0.1.0"
edition = "2021"
publish = false

[dependencies]
rand = "0.8"
sha2 = "*"
emailaddress = "*"
redis = "*"
lettre = "*"
serde_json = "*"
