[package]
name = "season_pipeline"
version = "0.1.0"
edition = "2021"
publish = false

[dependencies]
bilibili-extractor = "=0.1.3"
clap = { version = "=4.6.7", features = ["derive"] }
rsubs-lib = "=0.1.10"
spinners = "=4.2.0"
