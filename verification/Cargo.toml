[package]
name = "ybuild"
version = "0.1.0"
edition = "2021"
publish = false

[dependencies]
tinyjson = "2"
pico-args = "0.5"
xshell = "0.2"
dialoguer = "*"
directories = "*"
log = "0.4"
notify = "*"
ctrlc = "3"
thiserror = "*"
