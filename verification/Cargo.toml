[package]
name = "ivcnotes"
version = "0.1.0"
edition = "2021"
publish = false

[dependencies]
ark-bn254 = "0.4"
ark-ff = "0.4"
ark-ec = "0.4"
ark-serialize = "0.4"
ark-std = "0.4"
ark-crypto-primitives = { version = "0.4", features = ["crh", "sponge", "r1cs"] }
ark-ed-on-bn254 = { version = "0.4", features = ["r1cs"] }
ark-groth16 = "0.4"
ark-relations = "0.4"
ark-r1cs-std = "0.4"
sha2 = "0.10"
aes = "0.8"
cbc = { version = "0.1", features = ["alloc"] }
rand = "0.8"
rand_core = "0.6"
serde = { version = "1", features = ["derive"] }
serde_json = "1"
chacha20poly1305 = "0.10"
clap = { version = "4", features = ["derive"] }
reqwest = { version = "0.11", default-features = false, features = ["blocking", "json"] }
