[package]
name = "mod_mail"
version = "0.1.0"
edition = "2021"
publish = false

[dependencies]
chrono = "0.4"
diesel = { version = "1.4", features = ["postgres"] }
dotenv = "0.15"
error-chain = "0.12"
log = "0.4"
parking_lot = "0.9"
r2d2 = "0.8"
r2d2-diesel = "1.0"
rand = "0.8"
serenity = "0.8"
strsim = "0.9"
