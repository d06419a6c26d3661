[package]
name = "firestore_query"
version = "0.1.0"
edition = "2021"
publish = false

[dependencies]
gcloud-sdk = { version = "=0.32.4", default-features = false, features = ["google-firestore-v1", "tls-roots"] }
