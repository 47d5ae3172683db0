[package]
name = "smart_chessboard"
version = "0.1.0"
edition = "2021"
publish = false

[dependencies]
embassy-executor = "0.7"
embassy-sync = "0.6"
embassy-time = "0.4"
embedded-hal = "=0.2.7"
esp-alloc = "0.7"
esp-backtrace = { version = "0.15", features = ["esp32s3", "panic-handler", "exception-handler", "println"] }
esp-hal = { version = "=1.0.0-beta.0", features = ["esp32s3", "unstable"] }
esp-hal-embassy = { version = "0.7", features = ["esp32s3"] }
esp-println = { version = "0.13", features = ["esp32s3"] }
esp-wifi = { version = "0.13", features = ["esp32s3", "ble"] }
hd44780-driver = "=0.4.0"
heapless = "=0.8.0"
