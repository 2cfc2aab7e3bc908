[package]
name = "can_monitor_1_rust"
version = "0.1.0"
edition = "2021"
publish = false

[dependencies]
avr-device = { version = "0.9", features = ["atmega328p"] }
embedded-hal = "1"
panic-halt = "1"
ufmt = "0.2"
