[package]
name = "gst_span_bridge"
version = "0.1.0"
edition = "2021"
publish = false

[dependencies]
gstreamer = { version = "0.20", features = ["v1_22"] }
thread_local = "1"
tracing = "0.1"
tracing-core = "0.1"
