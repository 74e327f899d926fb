[package]
name = "puniyu_logger"
version = "0.6.2"
edition = "2021"
publish = false

[dependencies]
log = "=0.4.35"
logforth = { version = "=0.30.1", features = ["starter-log"] }
jiff = "=0.2.39"
owo-colors = "=4.4.0"
strip-ansi-escapes = "=0.2.1"
convert_case = "=0.12.0"
tracing = "=0.1.44"
tracing-subscriber = "=0.3.23"
tracing-appender = "=0.2.5"
tracing-log = "=0.2.0"
chrono = "=0.4.45"
chrono-tz = "=0.10.4"
