[package]
name = "acpitool"
version = "1.0.0"
edition = "2021"
publish = false

[dependencies]
acpi_client = "*"
clap = "2"
