[package]
name = "mikoto_bot"
version = "0.1.0"
edition = "2021"
publish = false

[dependencies]
cortex-m-rtic = "1.1"
defmt = "0.3"
defmt-rtt = "0.4"
embedded-hal = "0.2"
libm = "0.2"
mpu6050-dmp = "*"
panic-probe = { version = "0.3", features = ["print-defmt"] }
pid = "4"
stm32f4xx-hal = { version = "0.13", features = ["stm32f401", "rt"] }
vl53l1 = "*"
