pub mod profile_content;
pub mod profile_imports;
pub mod profile_laws;
pub mod profile_marks;
pub mod setup_laws;
pub mod setup_run;
pub mod setup_service;
pub mod setup_summary;
pub mod shell_selection;

pub use setup_service::SetupService;
