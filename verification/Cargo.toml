[package]
name = "hexagen_firmware"
version = "0.1.0"
edition = "2021"
publish = false

[dependencies]
heapless = "=0.8.0"
embassy-sync = "=0.8.0"
embassy-futures = "=0.1.2"
embassy-time = "=0.5.1"
embassy-executor = { version = "=0.9.1", features = ["arch-std", "executor-thread"] }
embassy-usb = "=0.6.0"
defmt = "=1.2.0"
static_cell = "=2.1.1"
smart-leds = "=0.4.0"
embassy-rp = { version = "=0.10.0", features = ["rp2040", "time-driver", "critical-section-impl"] }
cortex-m = "=0.7.10"
defmt-rtt = "=1.3.1"
panic-probe = "=1.0.0"
rp2040-boot2 = "=0.3.0"
