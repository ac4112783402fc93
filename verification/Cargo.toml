[package]
name = "git_suggestion"
version = "0.1.0"
edition = "2021"
publish = false

[dependencies]
git2 = { version = "*", default-features = false }
url = "*"
serde = { version = "*", features = ["derive"] }
serde_json = "*"
getopts = "*"
exitcode = "*"
thiserror = "*"

[dev-dependencies]
tempfile = "*"
