[package]
name = "contagion_macro"
version = "0.1.0"
edition = "2021"
publish = false

[dependencies]
ctrlc = "=3.5.2"
device_query = "=2.1.0"
enigo = "=0.2.1"
evdev = "=0.12.2"
libc = "=0.2.191"
sysinfo = { version = "0.29", default-features = false }
winapi = { version = "0.3", features = ["handleapi", "processthreadsapi", "winbase", "winnt", "winuser"] }
