[package]
name = "xds_transport"
version = "0.1.0"
edition = "2021"
publish = false

[dependencies]
bytes = "1"
google-cloud-auth = "1"
http = "1"
tokio = { version = "1", features = ["rt", "sync"] }
tokio-stream = "0.1"
tonic = { version = "0.14", features = ["tls-ring", "tls-native-roots"] }

[dev-dependencies]
envoy-types = "*"
http-body = "1"
http-body-util = "0.1"
hyper-util = "0.1"
prost = "0.14"
tower-service = "0.3"
