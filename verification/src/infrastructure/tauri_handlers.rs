//! The document commands offered to the user interface, over a shared document service.
//! Each answers the interface with plain values: an identifier, documents as DTOs, or the
//! message of the domain error. Receiving the call and locking the state happen at the
//! application's edge.

use vstd::prelude::*;
use crate::domain::entities::document::es_uuid_v4;
use crate::application::dto::{vista_dto, DocumentDto};
use crate::application::{CreateDocumentCommand, ListDocumentsQuery};
use crate::domain::entities::{DocumentId, DocumentView};
use crate::domain::repositories::{es_orden_reciente, pagina, DocumentRepository};
use crate::domain::services::DocumentService;
use crate::infrastructure::database::InMemoryDocumentRepository;
use crate::texto::unir3;

verus! {

/// The DTOs of a sequence of documents, by their views.
pub open spec fn vistas_dtos(v: Seq<DocumentDto>) -> Seq<DocumentView> {
    v.map_values(|d: DocumentDto| vista_dto(d))
}

/// Application state shared across the interface commands.
pub struct AppState {
    pub document_service: DocumentService<InMemoryDocumentRepository>,
}

impl AppState {
    /// The state with an empty in-memory store.
    pub fn new() -> (r: AppState)
        ensures
            r.document_service.documentos() == Map::<Seq<char>, DocumentView>::empty(),
            r.document_service.siempre_responde(),
    {
        let repository = InMemoryDocumentRepository::new();
        AppState { document_service: DocumentService::new(repository) }
    }

    /// Creates a document and answers its identifier.
    pub fn create_document(&mut self, title: String, content: String) -> (r: Result<String, String>)
        ensures
            r matches Ok(id) && es_uuid_v4(id@) && exists|d: DocumentView| {
                &&& d.id == id@
                &&& d.title == title@
                &&& d.content == content@
                &&& d.file_path is None
                &&& d.tags.len() == 0
                &&& #[trigger] final(self).document_service.documentos() == old(self).document_service.documentos().insert(id@, d)
            },
    {
        let command = CreateDocumentCommand::new(title, content);
        match self.document_service.create_document(command.title, command.content) {
            Ok(doc) => Ok(doc.id.0),
            Err(e) => Err(e.to_string()),
        }
    }

    /// The document with the given identifier, as a DTO, if stored.
    pub fn get_document(&self, id: String) -> (r: Result<Option<DocumentDto>, String>)
        ensures
            r matches Ok(o) && match o {
                Some(dto) => self.document_service.documentos().contains_key(id@)
                    && vista_dto(dto) == self.document_service.documentos()[id@],
                None => !self.document_service.documentos().contains_key(id@),
            },
    {
        let doc_id = DocumentId::from_str(id.as_str());
        match self.document_service.get_document(&doc_id) {
            Ok(Some(doc)) => Ok(Some(DocumentDto::from(doc))),
            Ok(None) => Ok(None),
            Err(e) => Err(e.to_string()),
        }
    }

    /// One page of the stored documents, newest first, as DTOs: `limit` defaults to 10
    /// and `offset` to 0.
    pub fn list_documents(&self, limit: Option<u32>, offset: Option<u32>) -> (r: Result<Vec<DocumentDto>, String>)
        requires
            limit.unwrap_or(10) + offset.unwrap_or(0) <= u32::MAX,
        ensures
            r matches Ok(v) && exists|s: Seq<DocumentView>|
                es_orden_reciente(s, self.document_service.documentos()) && vistas_dtos(v@) == pagina(
                    s,
                    offset.unwrap_or(0) as int,
                    limit.unwrap_or(10) as int,
                ),
    {
        let l = match limit {
            Some(n) => n,
            None => 10,
        };
        let o = match offset {
            Some(n) => n,
            None => 0,
        };
        let query = ListDocumentsQuery::new(l, o);
        match self.document_service.list_documents(query.limit, query.offset) {
            Ok(docs) => {
                let ghost vistas = crate::domain::repositories::vistas_documentos(docs@);
                let mut r: Vec<DocumentDto> = Vec::new();
                let mut docs = docs;
                let ghost entrada = docs@;
                let mut i: usize = 0;
                let n = docs.len();
                while i < n
                    invariant
                        n == entrada.len(),
                        docs@.len() + i == n,
                        forall|k: int| 0 <= k < docs@.len() ==> docs@[k] == entrada[i + k],
                        vistas_dtos(r@) == crate::domain::repositories::vistas_documentos(entrada).take(i as int),
                    decreases n - i,
                {
                    let d = docs.remove(0);
                    let ghost antes = r@;
                    r.push(DocumentDto::from(d));
                    proof {
                        assert(vistas_dtos(r@) =~= vistas_dtos(antes).push(vista_dto(r@[i as int])));
                        assert(crate::domain::repositories::vistas_documentos(entrada).take(i as int + 1)
                            =~= crate::domain::repositories::vistas_documentos(entrada).take(i as int).push(entrada[i as int]@));
                    }
                    i = i + 1;
                }
                proof {
                    assert(crate::domain::repositories::vistas_documentos(entrada).take(n as int)
                        =~= crate::domain::repositories::vistas_documentos(entrada));
                }
                Ok(r)
            },
            Err(e) => Err(e.to_string()),
        }
    }

    /// Removes the document with the given identifier, if stored.
    pub fn delete_document(&mut self, id: String) -> (r: Result<(), String>)
        ensures
            r is Ok,
            final(self).document_service.documentos() == old(self).document_service.documentos().remove(id@),
    {
        let doc_id = DocumentId::from_str(id.as_str());
        match self.document_service.delete_document(&doc_id) {
            Ok(()) => Ok(()),
            Err(e) => Err(e.to_string()),
        }
    }
}

impl Default for AppState {
    fn default() -> (r: AppState)
        ensures
            r.document_service.documentos() == Map::<Seq<char>, DocumentView>::empty(),
    {
        AppState::new()
    }
}

/// The greeting of the legacy greeting command.
pub fn greet(name: &str) -> (r: String)
    ensures
        r@ == "Hello, "@ + name@ + "! You've been greeted from Rust!"@,
{
    unir3("Hello, ", name, "! You've been greeted from Rust!")
}

} // verus!
