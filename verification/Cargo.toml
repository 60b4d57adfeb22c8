[package]
name = "taskchampion-lib"
version = "0.1.0"
edition = "2021"
publish = false

[dependencies]
anyhow = "=1.0.104"
chrono = "=0.4.45"
ffizz-header = "=0.4.1"
ffizz-passby = "=0.4.1"
ffizz-string = "=0.4.1"
libc = "=0.2.191"
taskchampion = "=0.4.1"
