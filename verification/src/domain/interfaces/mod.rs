pub mod downloader;
pub mod installer;
pub mod profile_writer;
pub mod shell;
pub mod terminal_config;

pub use downloader::Downloader;
pub use installer::Installer;
pub use profile_writer::ProfileWriter;
pub use shell::ShellRunner;
pub use terminal_config::TerminalConfigurator;
