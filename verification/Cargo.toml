[package]
name = "afplay"
version = "0.1.0"
edition = "2021"
publish = false

[dependencies]
crossbeam-channel = "*"
crossbeam-queue = "*"
rb = "*"
symphonia = "*"
audio_thread_priority = "*"
fundsp = "*"
log = "*"
