[package]
name = "quat"
version = "0.1.0"
edition = "2021"
publish = false

[dependencies]
num = "=0.4.3"
signed = "=0.1.1"
trig = "=0.4.0"

[dev-dependencies]
vec4 = "=0.2.1"
