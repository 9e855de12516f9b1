[package]
name = "bott"
version = "0.1.0"
edition = "2021"
publish = false

[dependencies]
base64 = "=0.23.1"
keyring = "=2.3.3"
users = "=0.11.0"
serde = { version = "*", features = ["derive"] }
serde_derive = "*"
serde_json = "*"
confy = { version = "=2.0.0", default-features = false, features = ["yaml_conf"] }
directories = "*"
async-openai = { version = "=0.42.1", features = ["chat-completion"] }
reqwest = { version = "*", default-features = false, features = ["json"] }
tokio = { version = "*", features = ["macros", "rt-multi-thread"] }
clap = "*"
dialoguer = "*"
spinners = "*"
exitcode = "*"
