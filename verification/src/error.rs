//! Domain-level errors.

use vstd::prelude::*;
use crate::infrastructure::error::{InfrastructureError, mensaje_infraestructura};
use crate::texto::unir;

verus! {

/// Domain-level errors.
#[derive(Debug, PartialEq, Eq)]
pub enum DomainError {
    DocumentNotFound,
    DocumentNotEditable,
    FileNotFound(String),
    FileReadError,
    FileWriteError,
    OcrError(String),
    AiServiceNotConfigured,
    AiApiError(String),
    RepositoryError(String),
    ValidationError(String),
}

/// The message of each domain error.
pub open spec fn mensaje_dominio(e: DomainError) -> Seq<char> {
    match e {
        DomainError::DocumentNotFound => "Document not found"@,
        DomainError::DocumentNotEditable => "Document is not editable in its current state"@,
        DomainError::FileNotFound(p) => "File not found: "@ + p@,
        DomainError::FileReadError => "Failed to read file"@,
        DomainError::FileWriteError => "Failed to write file"@,
        DomainError::OcrError(m) => "OCR processing failed: "@ + m@,
        DomainError::AiServiceNotConfigured => "AI service not configured"@,
        DomainError::AiApiError(m) => "AI API error: "@ + m@,
        DomainError::RepositoryError(m) => "Repository error: "@ + m@,
        DomainError::ValidationError(m) => "Validation error: "@ + m@,
    }
}

impl DomainError {
    /// The message of the error.
    pub fn to_string(&self) -> (r: String)
        ensures
            r@ == mensaje_dominio(*self),
    {
        match self {
            DomainError::DocumentNotFound => String::from_str("Document not found"),
            DomainError::DocumentNotEditable => String::from_str(
                "Document is not editable in its current state",
            ),
            DomainError::FileNotFound(p) => unir("File not found: ", p.as_str()),
            DomainError::FileReadError => String::from_str("Failed to read file"),
            DomainError::FileWriteError => String::from_str("Failed to write file"),
            DomainError::OcrError(m) => unir("OCR processing failed: ", m.as_str()),
            DomainError::AiServiceNotConfigured => String::from_str("AI service not configured"),
            DomainError::AiApiError(m) => unir("AI API error: ", m.as_str()),
            DomainError::RepositoryError(m) => unir("Repository error: ", m.as_str()),
            DomainError::ValidationError(m) => unir("Validation error: ", m.as_str()),
        }
    }

    /// The domain error for an infrastructure error.
    pub fn from(err: InfrastructureError) -> (r: DomainError)
        ensures
            match err {
                InfrastructureError::Database(m) => r matches DomainError::RepositoryError(x) && x@ == m@,
                InfrastructureError::FileSystem(_) => r is FileReadError,
                _ => r matches DomainError::RepositoryError(x) && x@ == mensaje_infraestructura(err),
            },
    {
        match err {
            InfrastructureError::Database(msg) => DomainError::RepositoryError(msg),
            InfrastructureError::FileSystem(_) => DomainError::FileReadError,
            _ => DomainError::RepositoryError(err.to_string()),
        }
    }
}

} // verus!
