[package]
name = "easy_hash"
version = "0.1.0"
edition = "2021"
publish = false

[dependencies]
fletcher = "*"
const-fnv1a-hash = "1"
bytemuck = "1"
syn = "1"
quote = "1"
proc-macro2 = "1"
rapier2d = "*"
bevy_ecs = "*"
ordered-float = "*"
