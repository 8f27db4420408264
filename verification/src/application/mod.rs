//! Application layer: commands, queries and data transfer objects.

pub mod commands;
pub mod dto;
pub mod queries;

pub use commands::{
    CreateDocumentCommand, CreateDocumentResult, DeleteDocumentCommand, ProcessOcrCommand,
    ScanDocumentCommand, UpdateDocumentCommand,
};
pub use dto::{DocumentDto, OcrResultDto, ScanResultDto};
pub use queries::{GetDocumentQuery, ListDocumentsQuery, SearchDocumentsQuery};
