[package]
name = "rgbnode"
version = "0.1.0"
edition = "2021"
publish = false

[dependencies]
oorandom = "=11.1.5"
lexical-core = "=0.7.6"
infrared = "=0.10.0"
cortex-m = "=0.6.7"
cortex-m-rt = "=0.6.15"
cortex-m-semihosting = "=0.3.7"
panic-semihosting = "=0.5.6"
embedded-hal = "=0.2.7"
stm32f1xx-hal = { version = "=0.6.1", features = ["stm32f103", "rt", "medium", "stm32-usbd"] }
usb-device = "=0.2.9"
usbd-serial = "=0.1.1"
