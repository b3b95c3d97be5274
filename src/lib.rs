//! Lifecycle and event decisions for system-wide low-level input hooks.
pub mod commands;
pub mod hook_registry;
pub mod keyboard_hook;
pub mod mouse_hook;
pub mod windows_api;
