//! Domain entities.

pub mod document;
pub mod ocr_result;
pub mod scan_result;

pub use document::{Document, DocumentId, DocumentView};
pub use ocr_result::{BoundingBox, OcrResult, TextBlock};
pub use scan_result::{ScanMetadata, ScanResult};
