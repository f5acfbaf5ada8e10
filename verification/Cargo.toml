[package]
name = "tiger_pid_speed_controller"
version = "0.1.0"
edition = "2021"
publish = false

[dependencies]
env_logger = "0.7"
error-chain = "0.12"
pid = "2"
rosrust = "0.9"
rosrust_msg = "0.1"
