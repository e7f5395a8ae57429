[package]
name = "bootloader"
version = "0.1.0"
edition = "2021"
publish = false

[dependencies]
acpi = "=6.0.1"
log = "=0.4.34"
uefi = "=0.41.0"
