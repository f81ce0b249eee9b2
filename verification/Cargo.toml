[package]
name = "docker_ps"
version = "0.1.0"
edition = "2021"
publish = false

[dependencies]
docker-api = "=0.14.0"
pop-launcher = "*"
serde_json = "*"
tokio = { version = "=1.53.2", features = ["full"] }
