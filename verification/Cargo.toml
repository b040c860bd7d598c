[package]
name = "lynix_badge"
version = "0.1.0"
edition = "2021"
publish = false

[dependencies]
cortex-m = "=0.7.9"
embedded-graphics = "0.8"
embedded-hal = "=0.2.7"
embedded-text = "0.6"
fugit = "=0.3.9"
heapless = "=0.7.17"
nb = "=1.1.0"
panic-halt = "=0.2.0"
profont = "0.7"
rp-pico = "=0.7.0"
rp2040-hal = "=0.8.2"
tinybmp = "0.5"
uc8151 = "=0.2.0"
usb-device = "=0.2.9"
usbd-serial = "=0.1.1"
