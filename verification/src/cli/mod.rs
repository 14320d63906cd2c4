pub mod setup_cli;

pub use setup_cli::SetupCli;
