[package]
name = "letter_mover"
version = "0.1.0"
edition = "2021"
publish = false

[dependencies]
bare_metal_modulo = "=1.2.6"
pc-keyboard = "=0.8.0"
pluggable_interrupt_os = "=0.5.3"
