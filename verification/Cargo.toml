[package]
name = "mqtt_gate"
version = "0.1.0"
edition = "2021"
publish = false

[dependencies]
edge-dhcp = "*"
edge-nal = "*"
edge-nal-embassy = "*"
embassy-embedded-hal = "*"
embassy-executor = "*"
embassy-futures = "*"
embassy-net = { version = "*", features = ["tcp", "udp", "dns", "dhcpv4", "proto-ipv4", "medium-ethernet"] }
embassy-sync = "*"
embassy-time = "*"
embedded-io-async = "*"
esp-alloc = "*"
esp-bootloader-esp-idf = "*"
esp-hal = { version = "*", features = ["esp32", "unstable"] }
esp-println = { version = "*", features = ["esp32", "log-04"] }
esp-radio = { version = "*", features = ["esp32", "wifi", "unstable"] }
esp-rtos = { version = "*", features = ["esp32", "embassy", "esp-radio"] }
esp-storage = { version = "*", features = ["esp32"] }
heapless = "*"
log = "*"
picoserve = { version = "*", features = ["embassy"] }
sequential-storage = "*"
serde = { version = "*", default-features = false, features = ["derive", "alloc"] }
serde_json = { version = "*", default-features = false, features = ["alloc"] }
static_cell = "*"
