[package]
name = "zygisk_loader"
version = "0.1.0"
edition = "2021"
publish = false

[dependencies]
android_logger = "0.13"
jni = "0.20"
libc = "0.2"
log = "0.4"
