[package]
name = "root_task_gen"
version = "0.1.0"
edition = "2021"
publish = false

[dependencies]
cmake_config = "=0.1.1"
