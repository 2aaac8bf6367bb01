[package]
name = "watchparty"
version = "0.1.0"
edition = "2021"
publish = false

[dependencies]
anyhow = "=1.0.104"
futures = "=0.3.34"
tokio = { version = "=1.54.1", features = ["macros", "rt-multi-thread", "time", "signal"] }
crab_nat = "=0.8.1"
igd = { version = "=0.12.1", features = ["aio"] }
netdev = "=0.47.0"
ctrlc = "=3.5.2"
simple_logger = "=5.2.0"
turn-server = "=3.4.0"
rusty_ffmpeg = "=0.17.0"
