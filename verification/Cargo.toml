[package]
name = "planty"
version = "0.1.0"
edition = "2021"
publish = false

[dependencies]
embassy-sync = "=0.8.0"
embassy-executor = { version = "=0.9.1", features = ["arch-std", "executor-thread"] }
embassy-futures = "=0.1.2"
embassy-time = "=0.5.1"
embassy-nrf = { version = "=0.11.0", features = ["nrf52833", "gpiote", "time-driver-rtc1"] }
defmt = "=1.2.0"
defmt-rtt = "=1.3.1"
panic-probe = "=1.0.0"
