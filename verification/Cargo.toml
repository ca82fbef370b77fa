[package]
name = "azure_transport"
version = "0.1.0"
edition = "2021"
publish = false

[dependencies]
async-trait = "0.1"
azure_core = { version = "*", default-features = false }
futures-util = { version = "0.3", default-features = false }
http = "1"
http-body = "1"
http-body-util = "0.1"
bytes = "1"
tracing = "0.1"
typespec_client_core = { version = "*", default-features = false, features = ["http"] }
url = "2"
