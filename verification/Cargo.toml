[package]
name = "ashpd"
version = "0.1.0"
edition = "2021"
publish = false

[dependencies]
serde = "1"
serde_repr = "0.1"
zbus = "*"
zvariant = "*"
zvariant_derive = "*"
