[package]
name = "dropseed"
version = "0.1.0"
edition = "2021"
publish = false

[dependencies]
fnv = "=1.0.7"
smallvec = "=1.16.4"
basedrop = "=0.1.3"
log = "=0.4.34"
dirs = "=4.0.0"
globwalk = "=0.8.1"
raw-window-handle = "=0.5.2"
meadowlark-core-types = "=0.3.0"
clack-host = "=0.2.0"
