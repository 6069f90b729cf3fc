[package]
name = "avgfilter"
version = "0.1.0"
edition = "2021"
publish = false

[dependencies]
anyhow = "*"
byte-slice-cast = "*"
env_logger = "*"
glib = "*"
gstreamer = "*"
gstreamer-base = "*"
gstreamer-video = "*"
log = "*"
once_cell = "*"
portal-screencast = "*"
