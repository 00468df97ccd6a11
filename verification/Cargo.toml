[package]
name = "facet_actix"
version = "0.1.0"
edition = "2021"
publish = false

[dependencies]
actix-web = "4"
facet = "*"
facet-format = "*"
facet-json = "*"
facet-urlencoded = "*"
