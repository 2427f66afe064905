[package]
name = "artbutler"
version = "0.1.0"
edition = "2021"
publish = false

[dependencies]
serde_json = "=1.0.151"
# teloxide-core accepts any takecell 0.1, but 0.1.2 asks for a newer
# rustc than this project builds with; hold the earlier patch.
takecell = "=0.1.1"
tokio = { version = "=1.53.2", features = ["rt-multi-thread", "macros", "sync", "time"] }
reqwest = { version = "=0.13.5", features = ["json"] }
teloxide = { version = "=0.17.0", features = ["macros"] }
diesel = { version = "=2.3.14", features = ["postgres"] }
dotenvy = "=0.15.7"
log = "=0.4.34"
pretty_env_logger = "=0.5.0"
async-trait = "=0.1.92"
