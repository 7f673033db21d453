[package]
name = "image_organizer"
version = "0.1.0"
edition = "2021"
publish = false

[dependencies]
chrono = "*"
kamadak-exif = "*"
walkdir = "*"
clap = "*"
