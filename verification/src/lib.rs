//! Oficialia DSA: document management core (scanning, OCR and AI analysis pipeline).
//!
//! The verified library holds the domain model, the application commands and
//! queries, the in-memory repository, the decisions of the scanning pipeline and
//! the text processing they rely on.

pub mod application;
pub mod commands;
pub mod config;
pub mod db;
pub mod domain;
pub mod error;
pub mod infrastructure;
pub mod leyes;
pub mod models;
pub mod pipeline;
pub mod reloj;
pub mod texto;
