[package]
name = "dioxus_test"
version = "0.1.0"
edition = "2021"
publish = false

[dependencies]
accesskit = "=0.17.1"
test-that = "=0.6.0"
dioxus-core = "=0.7.10"
dioxus-html = "=0.7.10"
dioxus-native-dom = "=0.7.10"
blitz-dom = "=0.2.4"
blitz-traits = "=0.2.0"
stylo = "=0.8.0"
smallvec = "=1.16.4"
tokio = { version = "=1.54.1", features = ["time", "rt"] }
