[package]
name = "maildir_archiver"
version = "0.1.0"
edition = "2021"
publish = false

[dependencies]
anyhow = "=1.0.104"
env_logger = "=0.11.11"
flate2 = "=1.1.10"
log = "=0.4.34"
maildir = "=0.6.6"
mailparse = "=0.15.0"
structopt = "=0.3.26"
