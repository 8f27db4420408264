//! OCR result entity.

use vstd::prelude::*;
use crate::domain::entities::document::es_uuid_v4;
use crate::domain::entities::document::{nuevo_uuid, DocumentId};

verus! {

/// Bounding box coordinates of detected text.
#[derive(Debug, Clone, Copy, PartialEq, Eq, Structural)]
pub struct BoundingBox {
    pub x: i32,
    pub y: i32,
    pub width: i32,
    pub height: i32,
}

/// Text block detected by OCR. The confidence is kept in basis points
/// (ten-thousandths: 9500 stands for 0.95).
pub struct TextBlock {
    pub text: String,
    pub confidence: u16,
    pub bounding_box: Option<BoundingBox>,
}

/// Result of an OCR operation.
pub struct OcrResult {
    pub id: String,
    pub document_id: DocumentId,
    pub extracted_text: String,
    pub blocks: Vec<TextBlock>,
    pub language: String,
    pub processing_time_ms: u64,
    pub success: bool,
    pub error_message: Option<String>,
}

impl OcrResult {
    /// A successful result with the extracted text, no blocks yet and no measured time.
    pub fn new(document_id: DocumentId, extracted_text: String, language: String) -> (r: OcrResult)
        ensures
            es_uuid_v4(r.id@),
            r.document_id == document_id,
            r.extracted_text == extracted_text,
            r.blocks@.len() == 0,
            r.language == language,
            r.processing_time_ms == 0,
            r.success,
            r.error_message is None,
    {
        OcrResult {
            id: nuevo_uuid(),
            document_id,
            extracted_text,
            blocks: Vec::new(),
            language,
            processing_time_ms: 0,
            success: true,
            error_message: None,
        }
    }

    /// The result with the given text blocks.
    pub fn with_blocks(self, blocks: Vec<TextBlock>) -> (r: OcrResult)
        ensures
            r == (OcrResult { blocks, ..self }),
    {
        let mut r = self;
        r.blocks = blocks;
        r
    }

    /// The result with the given processing time.
    pub fn with_processing_time(self, time_ms: u64) -> (r: OcrResult)
        ensures
            r == (OcrResult { processing_time_ms: time_ms, ..self }),
    {
        let mut r = self;
        r.processing_time_ms = time_ms;
        r
    }

    /// A failed result carrying the error message, with no text, blocks or language.
    pub fn error(document_id: DocumentId, error: String) -> (r: OcrResult)
        ensures
            es_uuid_v4(r.id@),
            r.document_id == document_id,
            r.extracted_text@ == Seq::<char>::empty(),
            r.blocks@.len() == 0,
            r.language@ == Seq::<char>::empty(),
            r.processing_time_ms == 0,
            !r.success,
            r.error_message == Some(error),
    {
        OcrResult {
            id: nuevo_uuid(),
            document_id,
            extracted_text: String::new(),
            blocks: Vec::new(),
            language: String::new(),
            processing_time_ms: 0,
            success: false,
            error_message: Some(error),
        }
    }
}

} // verus!
