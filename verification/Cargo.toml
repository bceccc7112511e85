[package]
name = "led_sequencer"
version = "0.1.0"
edition = "2021"
publish = false

[dependencies]
embedded-svc = "*"
esp-idf-hal = "*"
esp-idf-svc = "*"
log = "*"
