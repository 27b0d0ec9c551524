[package]
name = "steve"
version = "0.1.0"
edition = "2021"
publish = false

[dependencies]
serenity = { version = "0.11", default-features = false, features = ["builder", "cache", "client", "framework", "gateway", "model", "http", "standard_framework", "utils", "rustls_backend", "voice", "collector", "unstable_discord_api"] }
songbird = { version = "0.3", features = ["builtin-queue", "yt-dlp"] }
youtube_dl = "0.7"
rspotify = { version = "0.11", default-features = false, features = ["client-reqwest", "reqwest-rustls-tls"] }
rspotify-model = "0.11"
rspotify-http = { version = "0.11", default-features = false, features = ["client-reqwest", "reqwest-rustls-tls"] }
diesel = { version = "1.4", features = ["mysql"] }
chrono = "0.4"
dotenv = "0.15"
tokio = { version = "1", features = ["macros", "rt-multi-thread"] }
futures = "0.3"
async-recursion = "1"
