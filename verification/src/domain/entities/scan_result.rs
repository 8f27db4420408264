//! Scan result entity.

use vstd::prelude::*;
use crate::domain::entities::document::es_uuid_v4;
use crate::domain::entities::document::{nuevo_uuid, DocumentId};
use crate::reloj::{ahora, Instante};

verus! {

/// Metadata about a scanned document.
pub struct ScanMetadata {
    pub file_name: String,
    pub file_size: u64,
    pub mime_type: String,
    pub scan_date: Instante,
}

/// Result of a document scanning operation.
pub struct ScanResult {
    pub id: String,
    pub document_id: DocumentId,
    pub metadata: ScanMetadata,
    pub success: bool,
    pub error_message: Option<String>,
}

impl ScanResult {
    /// A successful scan of the document, with a fresh identifier.
    pub fn new(document_id: DocumentId, metadata: ScanMetadata) -> (r: ScanResult)
        ensures
            es_uuid_v4(r.id@),
            r.document_id == document_id,
            r.metadata == metadata,
            r.success,
            r.error_message is None,
    {
        ScanResult {
            id: nuevo_uuid(),
            document_id,
            metadata,
            success: true,
            error_message: None,
        }
    }

    /// A failed scan carrying the error message; its metadata is empty and dated now.
    pub fn error(document_id: DocumentId, error: String) -> (r: ScanResult)
        ensures
            es_uuid_v4(r.id@),
            r.document_id == document_id,
            r.metadata.file_name@ == Seq::<char>::empty(),
            r.metadata.file_size == 0,
            r.metadata.mime_type@ == Seq::<char>::empty(),
            !r.success,
            r.error_message == Some(error),
    {
        let now = ahora();
        ScanResult {
            id: nuevo_uuid(),
            document_id,
            metadata: ScanMetadata {
                file_name: String::new(),
                file_size: 0,
                mime_type: String::new(),
                scan_date: now,
            },
            success: false,
            error_message: Some(error),
        }
    }
}

} // verus!
