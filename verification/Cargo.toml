[package]
name = "solar_system"
version = "0.1.0"
edition = "2021"
publish = false

[dependencies]
nyx-space = "=1.1.2"
# Not used by any code of this crate. nyx-space draws its progress bars with
# indicatif 0.16, which takes console without its default features and needs
# what console 0.16 keeps behind `std`; naming the feature here lets it build.
console = { version = "=0.16.6", features = ["std"] }
strum = { version = "=0.26.3", features = ["derive"] }
strum_macros = "=0.26.4"
