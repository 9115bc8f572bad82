[package]
name = "simple_rt"
version = "0.1.0"
edition = "2021"
publish = false

[dependencies]
polling = "=2.8.0"
waker-fn = "=1.2.0"
parking = "=2.2.1"
parking_lot = "=0.12.5"
flume = "=0.11.1"
async-task = "=4.7.1"
futures = "=0.3.34"
rustix = { version = "=0.38.44", features = ["pipe"] }
