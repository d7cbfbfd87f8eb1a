[package]
name = "spotifly"
version = "0.1.0"
edition = "2021"
publish = false

[dependencies]
librespot-core = "=0.8.0"
librespot-metadata = "=0.8.0"
librespot-oauth = "=0.8.0"
librespot-playback = { version = "=0.8.0", default-features = false }
once_cell = "=1.21.4"
tokio = { version = "=1.54.1", features = ["rt-multi-thread", "sync", "macros"] }
# Not used by the code. The build script of librespot-core depends on
# vergen-gitcl 1.0, which compiles against vergen 9.0 and not against 9.1;
# this line holds the resolver to the release that it compiles against.
vergen = { version = "=9.0.6", default-features = false }
