pub mod filesystem;
pub mod installers;
pub mod network;
pub mod occurrences;
pub mod shell;
pub mod terminal;
pub mod text;

pub use filesystem::ProfileFsWriter;
pub use installers::{FontInstaller, FzfInstaller, ModuleInstaller, OhMyPoshInstaller, PwshInstaller};
pub use shell::PowerShellRunner;
pub use terminal::WindowsTerminalConfig;
