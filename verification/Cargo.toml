[package]
name = "sharp_pencil"
version = "0.1.0"
edition = "2021"
publish = false

[dependencies]
futures-util = "0.3"
handlebars = "3"
headers = "0.3"
http = "0.2"
hyper = { version = "0.14", features = ["server", "http1", "stream", "tcp"] }
lazycell = "1"
mime = "0.3"
mime_guess = "2"
multipart = { version = "0.18", default-features = false, features = ["server"] }
notify = "4"
serde_json = "1"
typemap = "0.3"
url = "2"
