[package]
name = "nucleo_h743zi"
version = "0.1.0"
edition = "2021"
publish = false

[dependencies]
log = "=0.4.35"
cortex-m = "0.7"
cortex-m-rt = "0.7"
cortex-m-log = { version = "0.7", features = ["log-integration", "itm"] }
embedded-hal = "=0.2.7"
nb = "=1.1.0"
lazy_static = "=1.5.1"
panic-halt = "=0.2.0"
stm32h7xx-hal = { version = "0.16", features = ["stm32h743v", "rt"] }
