[package]
name = "blanko_quaternions"
version = "0.1.0"
edition = "2021"

[dependencies]
auto_ops = "*"
bytemuck = { version = "*", features = ["derive"] }
derive_more = { version = "*", features = ["add", "add_assign", "mul", "mul_assign", "not", "from"] }
