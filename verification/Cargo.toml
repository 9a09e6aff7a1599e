[package]
name = "reader_fw"
version = "0.1.0"
edition = "2021"
publish = false

[dependencies]
heapless = "=0.8.0"
embedded-sdmmc = "=0.10.0"
embedded-hal = "=1.0.0"
embassy-time = "=0.5.1"
embassy-sync = "=0.8.0"
embassy-futures = "=0.1.2"
portable-atomic = "=1.15.0"
static_cell = "=2.1.1"
