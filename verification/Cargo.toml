[package]
name = "excelixir_rustler"
version = "0.1.0"
edition = "2021"
publish = false

[dependencies]
rustler = "=0.32.1"
umya-spreadsheet = "=1.2.7"

[dev-dependencies]
crossbeam-utils = "=0.8.23"
