[package]
name = "ringtostdout"
version = "0.1.0"
edition = "2021"
publish = false

[dependencies]
clap = "2"
nscldaq_ringbuffer = "*"
portman_client = "*"
