[package]
name = "htvmm"
version = "0.1.0"
edition = "2021"
publish = false

[dependencies]
iced-x86 = { version = "1", default-features = false, features = ["std", "decoder", "gas"] }
x86_64 = { version = "0.15", default-features = false, features = ["instructions"] }
linked_list_allocator = "0.10"
crossbeam = "0.8"
lazy_static = "1"
goblin = "*"
uefi = "*"
