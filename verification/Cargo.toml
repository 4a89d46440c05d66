[package]
name = "metrics_service"
version = "0.1.0"
edition = "2021"
publish = false

[dependencies]
netstat2 = "0.11.2"
procfs = "=0.7.9"
sysinfo = "=0.12.0"
substrate-prometheus-endpoint = "=0.8.1"
