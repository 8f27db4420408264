//! OCR service: text extraction from image data.

use vstd::prelude::*;
use crate::domain::entities::document::es_uuid_v4;
use crate::domain::entities::{BoundingBox, DocumentId, OcrResult, TextBlock};
use crate::error::DomainError;
use crate::reloj::{iniciar_cronometro, milisegundos_desde};

verus! {

/// The text that the built-in recognizer reports for any image.
pub open spec fn texto_ocr_provisional() -> Seq<char> {
    "[OCR Text Extraction Placeholder]"@
}

/// Service for OCR processing.
pub struct OcrService;

impl OcrService {
    /// A new OCR service.
    pub fn new() -> OcrService {
        OcrService
    }

    /// Extracts the text of an image: a successful result for the document in the given
    /// language, without blocks, timed in milliseconds.
    pub fn extract_text(&self, document_id: DocumentId, image_data: &[u8], language: &str) -> (r: Result<OcrResult, DomainError>)
        ensures
            r matches Ok(o) && es_uuid_v4(o.id@) && o.document_id == document_id
                && o.extracted_text@ == texto_ocr_provisional() && o.language@ == language@
                && o.blocks@.len() == 0 && o.success && o.error_message is None,
    {
        let start = iniciar_cronometro();
        let extracted_text = match self.perform_ocr(image_data) {
            Ok(t) => t,
            Err(e) => {
                return Err(e);
            },
        };
        let processing_time = milisegundos_desde(&start);
        let ocr_result = OcrResult::new(document_id, extracted_text, String::from_str(language));
        Ok(ocr_result.with_processing_time(processing_time))
    }

    /// The recognizer: it reports a fixed text for any image.
    fn perform_ocr(&self, _image_data: &[u8]) -> (r: Result<String, DomainError>)
        ensures
            r matches Ok(t) && t@ == texto_ocr_provisional(),
    {
        Ok(String::from_str("[OCR Text Extraction Placeholder]"))
    }

    /// Extracts the text as `extract_text` does and adds one block holding all of it,
    /// with confidence 0.95 and the box (0, 0, 100, 100).
    pub fn extract_text_with_blocks(&self, document_id: DocumentId, image_data: &[u8], language: &str) -> (r: Result<OcrResult, DomainError>)
        ensures
            r matches Ok(o) && es_uuid_v4(o.id@) && o.document_id == document_id
                && o.extracted_text@ == texto_ocr_provisional() && o.language@ == language@
                && o.success && o.error_message is None
                && o.blocks@.len() == 1
                && o.blocks@[0].text@ == o.extracted_text@
                && o.blocks@[0].confidence == 9500
                && o.blocks@[0].bounding_box == Some(BoundingBox { x: 0, y: 0, width: 100, height: 100 }),
    {
        let result = match self.extract_text(document_id, image_data, language) {
            Ok(o) => o,
            Err(e) => {
                return Err(e);
            },
        };
        let blocks = vec![
            TextBlock {
                text: result.extracted_text.clone(),
                confidence: 9500,
                bounding_box: Some(BoundingBox { x: 0, y: 0, width: 100, height: 100 }),
            },
        ];
        Ok(result.with_blocks(blocks))
    }
}

impl Default for OcrService {
    fn default() -> OcrService {
        OcrService::new()
    }
}

} // verus!
