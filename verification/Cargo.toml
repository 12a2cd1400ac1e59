[package]
name = "lenso-auth-passkey"
version = "0.1.0"
edition = "2021"
publish = false

[dependencies]
aes-gcm = "0.10"
base64 = "0.22"
getrandom = "0.3"
lenso = "*"
lenso-auth-sdk = "*"
lenso-capability-credential-issuer = "*"
lenso-capability-identity-directory = "*"
lenso-capability-secrets = "*"
lenso-contract-authoring = "*"
lenso-kernel = "*"
lenso-postgres-kit = "*"
schemars = "1"
serde = { version = "1", features = ["derive"] }
serde_json = "1"
sha2 = "0.10"
sqlx = { version = "*", default-features = false, features = ["postgres", "runtime-tokio", "time", "uuid", "json"] }
thiserror = "2"
time = { version = "0.3", features = ["formatting", "parsing"] }
url = "2"
uuid = { version = "1", features = ["v4"] }
webauthn-rs = { version = "0.5", features = ["danger-allow-state-serialisation", "danger-credential-internals"] }
zeroize = "1"

[dev-dependencies]
webauthn-authenticator-rs = { version = "0.5", features = ["softpasskey"] }
