[package]
name = "media_tracker"
version = "0.1.0"
edition = "2021"
publish = false

[dependencies]
anyhow = "1"
async-graphql = { version = "7", default-features = false, features = ["graphiql", "chrono", "decimal"] }
async-trait = "0.1"
axum = { version = "0.7", default-features = false, features = ["json", "multipart"] }
chrono = { version = "0.4", features = ["serde"] }
csv = "1"
itertools = "0.13"
nanoid = "0.4"
reqwest = { version = "0.12", default-features = false, features = ["json"] }
rust_decimal = { version = "1", features = ["serde"] }
sea-orm = { version = "1", default-features = false, features = ["macros", "with-chrono", "with-json", "with-rust_decimal"] }
sea-orm-migration = { version = "1", default-features = false }
serde = { version = "1", features = ["derive"] }
serde_json = "1"
serde_with = { version = "3", features = ["chrono_0_4"] }
