//! Commands: the write operations.

use vstd::prelude::*;
use crate::reloj::Instante;

verus! {

/// Command to create a new document.
pub struct CreateDocumentCommand {
    pub title: String,
    pub content: String,
}

impl CreateDocumentCommand {
    pub fn new(title: String, content: String) -> (r: CreateDocumentCommand)
        ensures
            r == (CreateDocumentCommand { title, content }),
    {
        CreateDocumentCommand { title, content }
    }
}

/// Result of creating a document.
pub struct CreateDocumentResult {
    pub id: String,
    pub title: String,
    pub created_at: Instante,
}

/// Command to update an existing document.
pub struct UpdateDocumentCommand {
    pub id: String,
    pub title: Option<String>,
    pub content: Option<String>,
}

impl UpdateDocumentCommand {
    /// An update of the document that changes nothing yet.
    pub fn new(id: String) -> (r: UpdateDocumentCommand)
        ensures
            r == (UpdateDocumentCommand { id, title: None, content: None }),
    {
        UpdateDocumentCommand { id, title: None, content: None }
    }

    /// The update that also sets the title.
    pub fn with_title(self, title: String) -> (r: UpdateDocumentCommand)
        ensures
            r == (UpdateDocumentCommand { title: Some(title), ..self }),
    {
        let mut r = self;
        r.title = Some(title);
        r
    }

    /// The update that also sets the content.
    pub fn with_content(self, content: String) -> (r: UpdateDocumentCommand)
        ensures
            r == (UpdateDocumentCommand { content: Some(content), ..self }),
    {
        let mut r = self;
        r.content = Some(content);
        r
    }
}

/// Command to delete a document.
pub struct DeleteDocumentCommand {
    pub id: String,
}

impl DeleteDocumentCommand {
    pub fn new(id: String) -> (r: DeleteDocumentCommand)
        ensures
            r == (DeleteDocumentCommand { id }),
    {
        DeleteDocumentCommand { id }
    }
}

/// Command to scan a document file.
pub struct ScanDocumentCommand {
    pub file_path: String,
}

impl ScanDocumentCommand {
    pub fn new(file_path: String) -> (r: ScanDocumentCommand)
        ensures
            r == (ScanDocumentCommand { file_path }),
    {
        ScanDocumentCommand { file_path }
    }
}

/// Command to run OCR on a document.
pub struct ProcessOcrCommand {
    pub document_id: String,
    pub language: String,
}

impl ProcessOcrCommand {
    /// The command for the given language, English (`"eng"`) when none is given.
    pub fn new(document_id: String, language: Option<String>) -> (r: ProcessOcrCommand)
        ensures
            r.document_id == document_id,
            match language {
                Some(l) => r.language == l,
                None => r.language@ == "eng"@,
            },
    {
        let language = match language {
            Some(l) => l,
            None => String::from_str("eng"),
        };
        ProcessOcrCommand { document_id, language }
    }
}

} // verus!
