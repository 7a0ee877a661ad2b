[package]
name = "remote_mouse"
version = "0.1.0"
edition = "2021"
publish = false

[dependencies]
enigo = "*"
qrcode = "*"
mime_guess = "*"
tungstenite = "*"
actix-web = "*"
include_dir = "*"
local-ip-address = "*"
