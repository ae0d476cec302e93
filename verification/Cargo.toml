[package]
name = "lenso_otel_module"
version = "0.1.0"
edition = "2021"
publish = false

[dependencies]
base64 = "=0.22.1"
hmac = "=0.12.1"
sha2 = "=0.10.9"
futures = "=0.3.34"
lenso-kernel = "=0.1.12"
lenso-native-adapter = "=0.2.4"

[dev-dependencies]
lenso-app-plan = "=0.2.0"
