[package]
name = "irqcore"
version = "0.1.0"
edition = "2021"
publish = false

[dependencies]
bit_field = "=0.10.3"
linked_list_allocator = "=0.10.6"
multiboot2 = "=0.28.0"
pic8259 = "=0.10.4"
spin = "=0.12.3"
x86 = "=0.52.0"
x86_64 = "=0.14.13"
