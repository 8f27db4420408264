//! Core of the scanning pipeline: errors, scanner configuration, OCR engine state and
//! the Gemini document analysis protocol.

pub mod error;
pub mod gemini_client;
pub mod ocr;
pub mod pdf_builder;
pub mod scanner;

pub use error::AppError;
