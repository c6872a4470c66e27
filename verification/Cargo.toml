[package]
name = "fpvsetup"
version = "1.0.0"
edition = "2021"
publish = false

[dependencies]
uom = "*"
fltk = "*"
native-dialog = "*"
edid-rs = "*"
winapi = { version = "0.3", features = ["setupapi", "winreg", "winerror", "handleapi", "winnt", "guiddef", "minwindef"] }
