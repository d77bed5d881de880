[package]
name = "time_plot"
version = "0.1.0"
edition = "2021"
publish = false

[dependencies]
leptos = "0.6"
leptos_meta = "0.6"
leptos_router = "0.6"
