[package]
name = "flight_core"
version = "0.1.0"
edition = "2021"
publish = false

[dependencies]
alt-stm32f30x-hal = { version = "=0.44.0", features = ["stm32f303"] }
asm-delay = "=0.9.0"
cortex-m-log = { version = "=0.8.0", features = ["itm"] }
cortex-m-rtfm = "=0.5.3"
dcmimu = "=0.3.0"
embedded-hal = "=0.2.7"
libm = "=0.2.16"
mpu9250 = "=0.25.0"
nalgebra = "=0.35.0"
nb = "=1.1.0"
