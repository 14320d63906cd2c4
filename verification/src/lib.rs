//! Provisioning of a PowerShell environment: the profile text, the catalog of
//! presets, and the orchestration of installers as a verified state machine.

pub mod application;
pub mod cli;
pub mod domain;
pub mod infrastructure;

pub use application::profile_content::generate_profile_content;
pub use application::SetupService;
pub use cli::SetupCli;
pub use domain::{ProfileConfig, ProfilePreset};
