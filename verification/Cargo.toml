[package]
name = "weather_station"
version = "0.1.0"
edition = "2021"
publish = false

[dependencies]
anyhow = "1"
bme280-rs = "0.1"
crossbeam-channel = "0.5"
debouncr = "0.2"
display-interface-spi = "0.4"
ds323x = "0.5"
embedded-graphics = "0.7"
embedded-svc = "0.24"
esp-idf-hal = "0.40"
esp-idf-svc = "0.45"
esp-idf-sys = "0.32"
log = "0.4"
mipidsi = "0.6"
shared-bus = { version = "0.2", features = ["std"] }
time = { version = "0.3", features = ["formatting", "parsing"] }
u8g2-fonts = "0.2"
