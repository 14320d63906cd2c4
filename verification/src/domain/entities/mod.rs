pub mod preset;
pub mod profile;

pub use preset::ProfilePreset;
pub use profile::ProfileConfig;
