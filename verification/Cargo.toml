[package]
name = "coredump_notes"
version = "0.1.0"
edition = "2021"
publish = false

[dependencies]
object = "*"
sentry-backtrace = "*"
