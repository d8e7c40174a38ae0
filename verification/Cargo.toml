[package]
name = "orientation_telemetry"
version = "0.1.0"
edition = "2021"
publish = false

[dependencies]
bbqueue = "=0.5.1"
log = "=0.4.34"
micromath = "=2.1.0"
rtt-target = "=0.6.2"
