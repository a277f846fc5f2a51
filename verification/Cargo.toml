[package]
name = "hid_composite"
version = "0.1.0"
edition = "2021"
publish = false

[dependencies]
adafruit-macropad = "=0.5.0"
cortex-m = "=0.7.10"
cortex-m-rt = "=0.7.7"
embedded-graphics = "=0.7.1"
embedded-hal = "=0.2.7"
embedded-text = "=0.5.0"
fugit = "=0.3.9"
log = "=0.4.34"
panic-persist = { version = "=0.3.0", features = ["utf8", "custom-panic-handler"] }
sh1106 = "=0.4.0"
usb-device = "=0.2.9"
