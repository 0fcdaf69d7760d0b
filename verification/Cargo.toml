[package]
name = "git_engine"
version = "0.1.0"
edition = "2021"
publish = false

[dependencies]
git2 = { version = "*", default-features = false, features = ["vendored-libgit2"] }
notify = "*"

[dev-dependencies]
tempfile = "*"
