//! Data transfer objects.

use vstd::prelude::*;
use vstd::std_specs::convert::FromSpecImpl;
use crate::domain::entities::{Document, DocumentView};
use crate::domain::entities::document::{textos, texto_opcional};
use crate::reloj::Instante;

verus! {

/// Document as handed to the user interface.
pub struct DocumentDto {
    pub id: String,
    pub title: String,
    pub content: String,
    pub file_path: Option<String>,
    pub created_at: Instante,
    pub updated_at: Instante,
    pub tags: Vec<String>,
}

/// What a document DTO holds, as the view of the document it describes.
pub open spec fn vista_dto(dto: DocumentDto) -> DocumentView {
    DocumentView {
        id: dto.id@,
        title: dto.title@,
        content: dto.content@,
        file_path: texto_opcional(dto.file_path),
        created_at: dto.created_at,
        updated_at: dto.updated_at,
        tags: textos(dto.tags@),
    }
}

impl From<Document> for DocumentDto {
    /// The document's fields, moved as they are.
    fn from(doc: Document) -> (r: DocumentDto) {
        DocumentDto {
            id: doc.id.0,
            title: doc.title,
            content: doc.content,
            file_path: doc.file_path,
            created_at: doc.created_at,
            updated_at: doc.updated_at,
            tags: doc.tags,
        }
    }
}

impl FromSpecImpl<Document> for DocumentDto {
    open spec fn obeys_from_spec() -> bool {
        true
    }

    open spec fn from_spec(doc: Document) -> DocumentDto {
        DocumentDto {
            id: doc.id.0,
            title: doc.title,
            content: doc.content,
            file_path: doc.file_path,
            created_at: doc.created_at,
            updated_at: doc.updated_at,
            tags: doc.tags,
        }
    }
}

/// Scan result as handed to the user interface.
pub struct ScanResultDto {
    pub id: String,
    pub document_id: String,
    pub file_name: String,
    pub file_size: u64,
    pub mime_type: String,
    pub success: bool,
    pub error_message: Option<String>,
}

/// OCR result as handed to the user interface.
pub struct OcrResultDto {
    pub id: String,
    pub document_id: String,
    pub extracted_text: String,
    pub language: String,
    pub processing_time_ms: u64,
    pub success: bool,
}

} // verus!
