//! Repository contract for document persistence.
//!
//! A repository holds documents keyed by identifier. Its contents are described by
//! `documentos`, a map from identifier to document; every operation is stated over it.

use vstd::prelude::*;
use crate::domain::entities::{Document, DocumentId, DocumentView};
use crate::error::DomainError;
use crate::reloj::es_antes;
use crate::texto::{contiene, minusculas};

verus! {

/// The views of a sequence of documents.
pub open spec fn vistas_documentos(v: Seq<Document>) -> Seq<DocumentView> {
    v.map_values(|d: Document| d@)
}

/// No two documents of `s` share an identifier.
pub open spec fn ids_distintos(s: Seq<DocumentView>) -> bool {
    forall|i: int, j: int| 0 <= i < s.len() && 0 <= j < s.len() && i != j ==> #[trigger] s[i].id != #[trigger] s[j].id
}

/// `s` lists, each once, exactly the stored documents that satisfy `pred`.
pub open spec fn es_seleccion(
    s: Seq<DocumentView>,
    m: Map<Seq<char>, DocumentView>,
    pred: spec_fn(DocumentView) -> bool,
) -> bool {
    &&& forall|i: int| 0 <= i < s.len() ==> #[trigger] m.contains_key(s[i].id) && m[s[i].id] == s[i] && pred(s[i])
    &&& ids_distintos(s)
    &&& forall|id: Seq<char>| #[trigger] m.contains_key(id) && pred(m[id]) ==> exists|i: int| 0 <= i < s.len() && #[trigger] s[i].id == id
}

/// Newest first: no document of `s` was created after one listed before it.
pub open spec fn mas_recientes_primero(s: Seq<DocumentView>) -> bool {
    forall|i: int, j: int| 0 <= i < j < s.len() ==> !es_antes(#[trigger] s[i].created_at, #[trigger] s[j].created_at)
}

/// `s` lists every stored document once, newest first (documents created at the same
/// instant may come in any order).
pub open spec fn es_orden_reciente(s: Seq<DocumentView>, m: Map<Seq<char>, DocumentView>) -> bool {
    es_seleccion(s, m, |d: DocumentView| true) && mas_recientes_primero(s)
}

/// The page of `s` that starts at `offset` and holds at most `limit` documents.
pub open spec fn pagina(s: Seq<DocumentView>, offset: int, limit: int) -> Seq<DocumentView> {
    if offset >= s.len() {
        Seq::empty()
    } else if offset + limit <= s.len() {
        s.subrange(offset, offset + limit)
    } else {
        s.subrange(offset, s.len() as int)
    }
}

/// The title holds the query, both compared in lower case.
pub open spec fn titulo_coincide(d: DocumentView, titulo: Seq<char>) -> bool {
    contiene(minusculas(d.title), minusculas(titulo))
}

/// Some tag equals the given one, both compared in lower case.
pub open spec fn etiqueta_coincide(d: DocumentView, tag: Seq<char>) -> bool {
    exists|i: int| 0 <= i < d.tags.len() && #[trigger] minusculas(d.tags[i]) == minusculas(tag)
}

/// Persistence of documents.
pub trait DocumentRepository {
    /// The stored documents, by identifier.
    spec fn documentos(&self) -> Map<Seq<char>, DocumentView>;

    /// The repository never reports a failure (as a store held in memory).
    spec fn siempre_responde(&self) -> bool;

    /// The error that a failed read of the identifier reports.
    spec fn error_lectura(&self, id: Seq<char>) -> DomainError;

    /// The error that a failed save of the document reports.
    spec fn error_escritura(&self, d: DocumentView) -> DomainError;

    /// The error that a failed delete of the identifier reports.
    spec fn error_eliminacion(&self, id: Seq<char>) -> DomainError;

    /// The error that a failed listing of a page reports.
    spec fn error_listado(&self, limit: u32, offset: u32) -> DomainError;

    /// The error that a failed search reports (by title when `por_titulo`, else by tag).
    spec fn error_busqueda(&self, consulta: Seq<char>, por_titulo: bool) -> DomainError;

    /// Saves a document, replacing any stored document with the same identifier.
    fn save(&mut self, document: &Document) -> (r: Result<(), DomainError>)
        ensures
            r is Ok ==> final(self).documentos() == old(self).documentos().insert(document@.id, document@),
            r is Err ==> final(self).documentos() == old(self).documentos(),
            r matches Err(e) ==> e == old(self).error_escritura(document@),
            old(self).siempre_responde() ==> r is Ok,
            final(self).siempre_responde() == old(self).siempre_responde(),
    ;

    /// The stored document with the given identifier, if any.
    fn find_by_id(&self, id: &DocumentId) -> (r: Result<Option<Document>, DomainError>)
        ensures
            r matches Ok(o) ==> match o {
                Some(d) => self.documentos().contains_key(id.0@) && d@ == self.documentos()[id.0@]
                    && d@.id == id.0@,
                None => !self.documentos().contains_key(id.0@),
            },
            r matches Err(e) ==> e == self.error_lectura(id.0@),
            self.siempre_responde() ==> r is Ok,
    ;

    /// One page of the stored documents, newest first.
    fn find_all(&self, limit: u32, offset: u32) -> (r: Result<Vec<Document>, DomainError>)
        requires
            offset + limit <= u32::MAX,
        ensures
            r matches Ok(v) ==> exists|s: Seq<DocumentView>|
                es_orden_reciente(s, self.documentos()) && vistas_documentos(v@) == pagina(
                    s,
                    offset as int,
                    limit as int,
                ),
            r matches Err(e) ==> e == self.error_listado(limit, offset),
            self.siempre_responde() ==> r is Ok,
    ;

    /// Removes the document with the given identifier, if stored.
    fn delete(&mut self, id: &DocumentId) -> (r: Result<(), DomainError>)
        ensures
            r is Ok ==> final(self).documentos() == old(self).documentos().remove(id.0@),
            r is Err ==> final(self).documentos() == old(self).documentos(),
            r matches Err(e) ==> e == old(self).error_eliminacion(id.0@),
            old(self).siempre_responde() ==> r is Ok,
            final(self).siempre_responde() == old(self).siempre_responde(),
    ;

    /// The stored documents whose title holds the query, ignoring case.
    fn find_by_title(&self, title: &str) -> (r: Result<Vec<Document>, DomainError>)
        ensures
            r matches Ok(v) ==> es_seleccion(
                vistas_documentos(v@),
                self.documentos(),
                |d: DocumentView| titulo_coincide(d, title@),
            ),
            r matches Err(e) ==> e == self.error_busqueda(title@, true),
            self.siempre_responde() ==> r is Ok,
    ;

    /// The stored documents with the given tag, ignoring case.
    fn find_by_tag(&self, tag: &str) -> (r: Result<Vec<Document>, DomainError>)
        ensures
            r matches Ok(v) ==> es_seleccion(
                vistas_documentos(v@),
                self.documentos(),
                |d: DocumentView| etiqueta_coincide(d, tag@),
            ),
            r matches Err(e) ==> e == self.error_busqueda(tag@, false),
            self.siempre_responde() ==> r is Ok,
    ;
}

} // verus!
