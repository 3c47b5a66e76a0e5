[package]
name = "thread_parker"
version = "0.1.0"
edition = "2021"
publish = false

[dependencies]
gnuplot = "=0.0.46"
itertools = "=0.15.0"
progress_bar = "=0.1.3"
