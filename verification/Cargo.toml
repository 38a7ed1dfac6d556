[package]
name = "cosupport"
version = "0.1.0"
edition = "2021"
publish = false

[dependencies]
mio = "=0.4.4"
deque = "=0.3.2"
coroutine = "=0.3.2"
rand = "=0.8.8"
libc = "=0.2.191"
log = "=0.4.35"
env_logger = "=0.11.11"
num_cpus = "=1.17.0"
lazy_static = "=1.5.1"
clap = "=4.6.7"
hyper = { version = "=1.12.0", default-features = false }
