[package]
name = "jvmti"
version = "0.1.0"
edition = "2021"
publish = false

[dependencies]
jni = "=0.22.4"
jni-sys = "=0.4.1"
allocator-api2 = "=0.4.0"

[dev-dependencies]
jvmti-sys = "=0.1.0"
