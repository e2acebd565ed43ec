[package]
name = "todo_list"
version = "0.1.0"
edition = "2021"
publish = false

[dependencies]
axum = "0.6"
minijinja = "2"
serde = { version = "1", features = ["derive"] }
tokio = { version = "1", features = ["macros", "rt-multi-thread"] }
uuid = { version = "1", features = ["v4"] }
