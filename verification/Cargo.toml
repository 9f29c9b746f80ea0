[package]
name = "aptos_vm"
version = "0.1.0"
edition = "2021"
publish = false

[dependencies]
anyhow = "1"
ark-bls12-381 = "0.4"
ark-bn254 = "0.4"
ark-ff = "0.4"
ark-serialize = "0.4"
bcs = "0.1"
futures = "0.3"
num_cpus = "1"
once_cell = "1"
rand = "0.7"
rayon = "1"
serde = { version = "1", features = ["derive"] }
tokio = { version = "1", features = ["macros", "rt", "sync", "time"] }
