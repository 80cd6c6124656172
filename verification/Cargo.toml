[package]
name = "deployer_actor"
version = "0.1.0"
edition = "2021"
publish = false

[dependencies]
anyhow = "=1.0.104"
cid = "=0.11.3"
frc42_dispatch = "=11.0.0"
fvm_ipld_encoding = "=0.5.4"
fvm_shared = "=4.8.4"
num-derive = "=0.5.1"
num-traits = "=0.2.19"
serde = { version = "=1.0.229", features = ["derive"] }

[dev-dependencies]
blake2b_simd = "=1.0.5"
