[package]
name = "halogen_os"
version = "0.1.0"
edition = "2021"
publish = false

[dependencies]
pc-keyboard = "=0.5.1"
x86_64 = "=0.15.5"
pic8259 = "=0.11.0"
spin = "=0.9.9"
lazy_static = "=1.5.1"
noto-sans-mono-bitmap = "=0.1.6"
bootloader-locator = "=0.0.4"
locate-cargo-manifest = "=0.2.2"
runner-utils = "=0.0.2"
