[package]
name = "logic_test"
version = "0.1.0"
edition = "2021"
publish = false

[dependencies]
rusqlite = { version = "*", features = ["bundled", "column_decltype"] }
sqllogictest = "*"
clap = { version = "*", features = ["derive"] }
regex = "*"
tokio = { version = "*", features = ["macros", "rt-multi-thread"] }
tracing-subscriber = "*"
glob = "*"
proc-macro2 = "*"
quote = "*"
syn = { version = "*", features = ["full"] }
relative-path = "*"
