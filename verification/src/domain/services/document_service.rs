//! Document service: the use cases over a document repository.

use vstd::prelude::*;
use crate::domain::entities::document::es_uuid_v4;
use crate::domain::entities::{Document, DocumentId, DocumentView};
use crate::domain::repositories::{es_orden_reciente, pagina, vistas_documentos, DocumentRepository};
use crate::domain::value_objects::FilePath;
use crate::error::DomainError;

verus! {

/// Service for document operations over a repository.
pub struct DocumentService<R: DocumentRepository> {
    repository: R,
}

impl<R: DocumentRepository> DocumentService<R> {
    /// The repository the service works on.
    pub closed spec fn repositorio(&self) -> R {
        self.repository
    }

    /// The stored documents, by identifier.
    pub open spec fn documentos(&self) -> Map<Seq<char>, DocumentView> {
        self.repositorio().documentos()
    }

    /// The underlying repository never reports a failure.
    pub open spec fn siempre_responde(&self) -> bool {
        self.repositorio().siempre_responde()
    }

    /// A service over the given repository.
    pub fn new(repository: R) -> (r: Self)
        ensures
            r.documentos() == repository.documentos(),
            r.siempre_responde() == repository.siempre_responde(),
    {
        DocumentService { repository }
    }

    /// Creates and stores a new document.
    pub fn create_document(&mut self, title: String, content: String) -> (r: Result<Document, DomainError>)
        ensures
            old(self).siempre_responde() ==> r is Ok,
            final(self).siempre_responde() == old(self).siempre_responde(),
            match r {
                Ok(d) => {
                    &&& d@.title == title@
                    &&& d@.content == content@
                    &&& d@.file_path is None
                    &&& d@.tags.len() == 0
                    &&& d@.created_at == d@.updated_at
                    &&& es_uuid_v4(d@.id)
                    &&& final(self).documentos() == old(self).documentos().insert(d@.id, d@)
                },
                Err(e) => {
                    &&& final(self).documentos() == old(self).documentos()
                    &&& exists|d: DocumentView| {
                        &&& e == #[trigger] old(self).repositorio().error_escritura(d)
                        &&& d.title == title@
                        &&& d.content == content@
                        &&& d.file_path is None
                        &&& d.tags.len() == 0
                    }
                },
            },
    {
        let document = Document::new(title, content);
        match self.repository.save(&document) {
            Ok(()) => Ok(document),
            Err(e) => Err(e),
        }
    }

    /// The document with the given identifier, if stored.
    pub fn get_document(&self, id: &DocumentId) -> (r: Result<Option<Document>, DomainError>)
        ensures
            self.siempre_responde() ==> r is Ok,
            r matches Ok(o) ==> match o {
                Some(d) => self.documentos().contains_key(id.0@) && d@ == self.documentos()[id.0@]
                    && d@.id == id.0@,
                None => !self.documentos().contains_key(id.0@),
            },
            r matches Err(e) ==> e == self.repositorio().error_lectura(id.0@),
    {
        self.repository.find_by_id(id)
    }

    /// Replaces the content of a stored document; fails with `DocumentNotFound` when no
    /// document has the identifier.
    pub fn update_content(&mut self, id: &DocumentId, content: String) -> (r: Result<Document, DomainError>)
        ensures
            final(self).siempre_responde() == old(self).siempre_responde(),
            old(self).siempre_responde() ==> (r is Ok <==> old(self).documentos().contains_key(id.0@)),
            old(self).siempre_responde() && !old(self).documentos().contains_key(id.0@) ==> r matches Err(
                DomainError::DocumentNotFound,
            ),
            match r {
                Ok(d) => {
                    &&& old(self).documentos().contains_key(id.0@)
                    &&& d@ == (DocumentView {
                        content: content@,
                        updated_at: d@.updated_at,
                        ..old(self).documentos()[id.0@]
                    })
                    &&& final(self).documentos() == old(self).documentos().insert(id.0@, d@)
                },
                Err(e) => {
                    &&& final(self).documentos() == old(self).documentos()
                    &&& {
                        ||| e == DomainError::DocumentNotFound && !old(self).documentos().contains_key(id.0@)
                        ||| e == old(self).repositorio().error_lectura(id.0@)
                        ||| old(self).documentos().contains_key(id.0@) && exists|d: DocumentView| {
                            &&& e == #[trigger] old(self).repositorio().error_escritura(d)
                            &&& d == (DocumentView {
                                content: content@,
                                updated_at: d.updated_at,
                                ..old(self).documentos()[id.0@]
                            })
                        }
                    }
                },
            },
    {
        let found = self.repository.find_by_id(id);
        let mut document = match found {
            Ok(Some(d)) => d,
            Ok(None) => {
                return Err(DomainError::DocumentNotFound);
            },
            Err(e) => {
                return Err(e);
            },
        };
        document.update_content(content);
        match self.repository.save(&document) {
            Ok(()) => Ok(document),
            Err(e) => Err(e),
        }
    }

    /// Sets the file path of a stored document; fails with `DocumentNotFound` when no
    /// document has the identifier.
    pub fn set_file_path(&mut self, id: &DocumentId, path: FilePath) -> (r: Result<Document, DomainError>)
        ensures
            final(self).siempre_responde() == old(self).siempre_responde(),
            old(self).siempre_responde() ==> (r is Ok <==> old(self).documentos().contains_key(id.0@)),
            old(self).siempre_responde() && !old(self).documentos().contains_key(id.0@) ==> r matches Err(
                DomainError::DocumentNotFound,
            ),
            match r {
                Ok(d) => {
                    &&& old(self).documentos().contains_key(id.0@)
                    &&& d@ == (DocumentView {
                        file_path: Some(path@),
                        updated_at: d@.updated_at,
                        ..old(self).documentos()[id.0@]
                    })
                    &&& final(self).documentos() == old(self).documentos().insert(id.0@, d@)
                },
                Err(e) => {
                    &&& final(self).documentos() == old(self).documentos()
                    &&& {
                        ||| e == DomainError::DocumentNotFound && !old(self).documentos().contains_key(id.0@)
                        ||| e == old(self).repositorio().error_lectura(id.0@)
                        ||| old(self).documentos().contains_key(id.0@) && exists|d: DocumentView| {
                            &&& e == #[trigger] old(self).repositorio().error_escritura(d)
                            &&& d == (DocumentView {
                                file_path: Some(path@),
                                updated_at: d.updated_at,
                                ..old(self).documentos()[id.0@]
                            })
                        }
                    }
                },
            },
    {
        let found = self.repository.find_by_id(id);
        let document = match found {
            Ok(Some(d)) => d,
            Ok(None) => {
                return Err(DomainError::DocumentNotFound);
            },
            Err(e) => {
                return Err(e);
            },
        };
        let texto = match path.as_str() {
            Some(s) => String::from_str(s),
            None => String::new(),
        };
        let document = document.with_path(texto);
        match self.repository.save(&document) {
            Ok(()) => Ok(document),
            Err(e) => Err(e),
        }
    }

    /// Removes the document with the given identifier, if stored.
    pub fn delete_document(&mut self, id: &DocumentId) -> (r: Result<(), DomainError>)
        ensures
            final(self).siempre_responde() == old(self).siempre_responde(),
            old(self).siempre_responde() ==> r is Ok,
            r is Ok ==> final(self).documentos() == old(self).documentos().remove(id.0@),
            r is Err ==> final(self).documentos() == old(self).documentos(),
            r matches Err(e) ==> e == old(self).repositorio().error_eliminacion(id.0@),
    {
        self.repository.delete(id)
    }

    /// One page of the stored documents, newest first.
    pub fn list_documents(&self, limit: u32, offset: u32) -> (r: Result<Vec<Document>, DomainError>)
        requires
            offset + limit <= u32::MAX,
        ensures
            self.siempre_responde() ==> r is Ok,
            r matches Ok(v) ==> exists|s: Seq<DocumentView>|
                es_orden_reciente(s, self.documentos()) && vistas_documentos(v@) == pagina(
                    s,
                    offset as int,
                    limit as int,
                ),
            r matches Err(e) ==> e == self.repositorio().error_listado(limit, offset),
    {
        self.repository.find_all(limit, offset)
    }
}

} // verus!
