pub mod settings_json;
pub mod windows_terminal_config;

pub use windows_terminal_config::WindowsTerminalConfig;
