[package]
name = "channel_bench"
version = "0.1.0"
edition = "2021"
publish = false

[dependencies]
async-broadcast = "0.7"
async-channel = "2"
core_affinity = "0.8"
crossbeam-channel = "0.5"
crossbeam-queue = "0.3"
crossfire = "1"
flume = "0.11"
kanal = "0.1"
magnetic = "2"
minstant = "0.1"
npnc = "0.2"
omango = "0.2"
postage = "0.5"
rand = "0.8"
ringbuf = "0.3"
rtrb = "0.3"
tachyonix = "0.3"
thingbuf = "0.1"
tokio = { version = "1", features = ["rt", "rt-multi-thread", "time", "sync"] }
