[package]
name = "hamstercsv"
version = "0.1.0"
edition = "2021"
publish = false

[dependencies]
clap = { version = "=4.6.7", features = ["derive"] }
csscolorparser = "=0.9.0"
csv = "=1.4.0"
current_locale = "=0.1.1"
ncurses = "=5.101.0"
pancurses = "=0.17.0"
unicode-segmentation = "=1.13.3"
