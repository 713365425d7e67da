[package]
name = "ormolu"
version = "0.1.0"
edition = "2021"
publish = false

[dependencies]
clap = { version = "4", features = ["derive"] }
convert_case = "0.6"
dotenvy = "0.15"
futures = "0.3"
phf = { version = "0.11", features = ["macros"] }
proc-macro2 = "1"
quote = "1"
sqlx = { version = "0.7", default-features = false, features = ["postgres", "runtime-tokio", "macros"] }
syn = { version = "2", features = ["full"] }
thiserror = "1"
tokio = { version = "1", features = ["rt", "rt-multi-thread"] }
url = "2"
