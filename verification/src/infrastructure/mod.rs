//! Infrastructure layer: persistence, file system, API clients and errors.

pub mod api_clients;
pub mod database;
pub mod error;
pub mod file_system;
pub mod tauri_handlers;

pub use error::InfrastructureError;
