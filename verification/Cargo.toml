[package]
name = "soro_task"
version = "0.1.0"
edition = "2021"

[dependencies]
soroban-sdk = "=21.7.7"
