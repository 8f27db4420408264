//! Value objects of the domain.

pub mod document_status;
pub mod file_path;

pub use document_status::DocumentStatus;
pub use file_path::{FilePath, FilePathError};
