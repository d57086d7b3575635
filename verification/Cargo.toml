[package]
name = "audio_registry"
version = "0.1.0"
edition = "2021"
publish = false

[dependencies]
sysinfo = { version = "=0.30.13", default-features = false }
midly = "=0.5.3"
smallvec = "=1.16.4"
oneshot = "=0.1.13"
midir = "0.10"
log = "0.4"
env_logger = "0.11"
dotenvy = "0.15"
windows = { version = "=0.52.0", features = ["implement", "Win32_Foundation", "Win32_Devices_Properties", "Win32_Media_Audio", "Win32_System_Com", "Win32_System_Com_StructuredStorage", "Win32_System_Variant", "Win32_UI_Accessibility", "Win32_UI_Shell_PropertiesSystem", "Win32_UI_WindowsAndMessaging"] }
