[package]
name = "directory_console"
version = "0.1.0"
edition = "2021"
publish = false

[dependencies]
anyhow = "=1.0.104"
chrono = { version = "=0.4.45", default-features = false, features = ["serde", "std"] }
gloo-net = { version = "=0.7.0", default-features = false, features = ["http", "json"] }
graphql_client = { version = "=0.16.0", default-features = false }
serde = { version = "=1.0.229", features = ["derive"] }
web-sys = { version = "=0.3.106", features = ["HtmlInputElement", "HtmlSelectElement", "InputEvent", "KeyboardEvent"] }
yew = { version = "=0.23.0", features = ["csr"] }
