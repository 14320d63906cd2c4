pub mod font_installer;
pub mod fzf_installer;
pub mod module_installer;
pub mod oh_my_posh_installer;
pub mod pwsh_installer;

pub use font_installer::FontInstaller;
pub use fzf_installer::FzfInstaller;
pub use module_installer::ModuleInstaller;
pub use oh_my_posh_installer::OhMyPoshInstaller;
pub use pwsh_installer::PwshInstaller;
