[package]
name = "musicboxd"
version = "0.1.0"
edition = "2021"
publish = false

[dependencies]
axum = "0.8"
httpdate = "1"
leptos = { version = "0.8", features = ["ssr"] }
leptos_axum = "0.8"
leptos_meta = { version = "0.8", features = ["ssr"] }
leptos_router = { version = "0.8", features = ["ssr"] }
oauth2 = { version = "5", default-features = false, features = ["reqwest"] }
reqwest = { version = "0.12", default-features = false, features = ["json", "rustls-tls"] }
serde = { version = "1", features = ["derive"] }
serde_json = "1"
sqlx = { version = "0.8", default-features = false, features = ["runtime-tokio", "sqlite", "migrate"] }
tokio = { version = "1", features = ["macros", "net", "rt-multi-thread", "sync"] }
uuid = { version = "1", features = ["v4"] }
