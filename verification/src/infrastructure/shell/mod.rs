pub mod command_line;
pub mod powershell_runner;

pub use command_line::CommandLine;
pub use powershell_runner::PowerShellRunner;
