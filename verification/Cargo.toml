[package]
name = "cckeyboard"
version = "0.1.0"
edition = "2021"
publish = false

[dependencies]
cortex-m = "0.7"
cortex-m-rt = "0.7"
stm32-hal2 = { version = "*", features = ["f411", "usbotg_fs"] }
usb-device = "0.3"
usbd-hid = "0.8"
panic-halt = "*"
