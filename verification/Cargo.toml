[package]
name = "powerplayer"
version = "0.1.0"
edition = "2021"
publish = false

[dependencies]
sha2 = "=0.11.0"
symphonia = "=0.5.5"
ringbuf = "=0.5.2"
rustfft = "=6.4.1"
image = "=0.25.10"
rusqlite = { version = "=0.40.2", features = ["bundled"] }
r2d2 = "=0.8.10"
r2d2_sqlite = "=0.35.0"
walkdir = "=2.5.0"
notify = "=8.2.0"
rayon = "=1.12.0"
id3 = "=1.17.2"
dirs = "=7.0.0"
serde = { version = "=1.0.229", features = ["derive"] }
