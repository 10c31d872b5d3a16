//! A small personal utility toolkit: a per-project configuration
//! bootstrap-and-load protocol, an iterative (non-recursive) directory tree
//! walker, a cross-filesystem-safe rename decision, file-identity comparison,
//! and numbered-backup-file naming.
//!
//! All file system effects are performed by the caller; this library holds the
//! decisions and the data, each with a proved contract.

pub mod backup_name;
pub mod bootstrap;
pub mod fileid;
pub mod project;
pub mod rename;
pub mod walk;

pub use backup_name::backup_file_name;
pub use bootstrap::ConfigLoader;
pub use fileid::FileId;
pub use fileid::FsError;
pub use fileid::eq_files;
pub use fileid::metadata_if_exists;
pub use project::ConfigError;
pub use project::Project;
pub use project::project;
pub use rename::RenameOutcome;
pub use rename::RenamePlan;
pub use rename::rename_plan;
pub use walk::walk_dir;
