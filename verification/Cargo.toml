[package]
name = "rtc_lcd"
version = "0.1.0"
edition = "2021"
publish = false

[dependencies]
embedded-hal = "=0.2.7"
shared-bus = "=0.2.5"
avr-device = { version = "=0.9.0", features = ["atmega328p", "rt"] }
panic-halt = "=0.2.0"
