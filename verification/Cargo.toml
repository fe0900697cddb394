[package]
name = "real_gpu_app"
version = "0.1.0"
edition = "2021"
publish = false

[dependencies]
wgpu = "*"
glyphon = "*"
pollster = "*"
bytemuck = { version = "*", features = ["derive"] }
windows = { version = "*", features = ["Win32_Foundation", "Win32_Graphics_DirectComposition", "Win32_Graphics_Dxgi", "Win32_Graphics_Dxgi_Common", "Win32_Graphics_Direct3D", "Win32_Graphics_Direct3D11", "Win32_Graphics_Gdi", "Win32_System_LibraryLoader", "Win32_UI_WindowsAndMessaging"] }
windows-sys = { version = "*", features = ["Win32_Foundation", "Win32_System_LibraryLoader", "Win32_UI_Input_KeyboardAndMouse", "Win32_UI_WindowsAndMessaging"] }
