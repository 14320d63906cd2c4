pub mod profile_fs_writer;

pub use profile_fs_writer::ProfileFsWriter;
