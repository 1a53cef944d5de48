[package]
name = "isola"
version = "0.1.0"
edition = "2021"
publish = false

[dependencies]
futures = "0.3"
reqwest = { version = "0.11", features = ["json"] }
serde = { version = "1", features = ["derive"] }
termion = "1.5"
tokio = { version = "1", features = ["macros", "rt-multi-thread"] }
tui = { version = "0.19", default-features = false, features = ["termion"] }
url = "2"
