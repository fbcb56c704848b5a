[package]
name = "shortlink"
version = "0.1.0"
edition = "2021"
publish = false

[dependencies]
rand = "0.8"
serde = { version = "1", features = ["derive"] }
tracing = "0.1"
async-trait = "0.1"
axum = "0.7"
sea-orm = { version = "1.1", default-features = false, features = ["macros", "with-json"] }
sea-orm-migration = { version = "1.1", default-features = false }
