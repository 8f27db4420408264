//! Domain services.

pub mod ai_service;
pub mod document_service;
pub mod ocr_service;
pub mod scanner_service;

pub use ai_service::{AiAnalysisResponse, AiService};
pub use document_service::DocumentService;
pub use ocr_service::OcrService;
pub use scanner_service::ScannerService;
