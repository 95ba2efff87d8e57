[package]
name = "lcd_panels"
version = "0.1.0"
edition = "2021"
publish = false

[dependencies]
embedded-graphics = "0.8"
esp-idf-svc = "*"
log = "0.4"
lv_bevy_ecs = "*"
