[package]
name = "fabsee"
version = "0.1.0"
edition = "2021"
publish = false

[dependencies]
serde = { version = "1", default-features = false, features = ["derive"] }
picoserve = { version = "*", features = ["embassy"] }
embassy-executor = "*"
embassy-sync = "*"
embassy-time = "*"
embassy-futures = "*"
embassy-net = { version = "*", features = ["tcp", "dhcpv4", "dns", "proto-ipv4", "medium-ethernet"] }
esp-hal = "*"
esp-rtos = "*"
esp-radio = "*"
esp-alloc = "*"
esp-backtrace = "*"
esp-println = "*"
esp-bootloader-esp-idf = "*"
esp-hal-ota = "*"
esp-storage = "*"
heapless = "*"
embedded-graphics = "*"
ssd1306 = "*"
tinybmp = "*"
embedded-hal = "1"
nb = "1"
static_cell = "2"
defmt = "1"
reqwless = { version = "*", default-features = false }
smoltcp = { version = "*", default-features = false, features = ["proto-ipv4", "socket-dns"] }
