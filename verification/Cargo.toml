[package]
name = "bottle_bot"
version = "0.1.0"
edition = "2021"
publish = false

[dependencies]
chrono = "0.4"
serenity = "0.8"
uuid = { version = "0.6", features = ["v4", "serde"] }
diesel = { version = "1.4", features = ["postgres", "chrono", "uuid", "r2d2"] }
diesel_migrations = "1.4"
r2d2 = "0.8"
serde = "1"
serde_derive = "1"
serde_json = "1"
envy = "0.3"
kankyo = "*"
typemap = "0.3"
simple-logging = "2"
log = "0.4"
time = "0.1"
iron = "0.6"
router = "0.6"
mount = "0.4"
staticfile = "0.5"
params = "0.8"
handlebars-iron = "*"
oauth2 = "1"
reqwest = "0.9"
