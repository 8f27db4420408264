//! Queries: the read operations.

use vstd::prelude::*;

verus! {

/// Query for one document by identifier.
pub struct GetDocumentQuery {
    pub id: String,
}

impl GetDocumentQuery {
    pub fn new(id: String) -> (r: GetDocumentQuery)
        ensures
            r == (GetDocumentQuery { id }),
    {
        GetDocumentQuery { id }
    }
}

/// Query for one page of documents.
pub struct ListDocumentsQuery {
    pub limit: u32,
    pub offset: u32,
}

impl Default for ListDocumentsQuery {
    /// The first ten documents.
    fn default() -> (r: ListDocumentsQuery)
        ensures
            r == (ListDocumentsQuery { limit: 10, offset: 0 }),
    {
        ListDocumentsQuery { limit: 10, offset: 0 }
    }
}

impl ListDocumentsQuery {
    pub fn new(limit: u32, offset: u32) -> (r: ListDocumentsQuery)
        ensures
            r == (ListDocumentsQuery { limit, offset }),
    {
        ListDocumentsQuery { limit, offset }
    }
}

/// Query to search documents.
pub struct SearchDocumentsQuery {
    pub query: String,
    pub limit: u32,
}

impl Default for SearchDocumentsQuery {
    /// An empty query with up to twenty results.
    fn default() -> (r: SearchDocumentsQuery)
        ensures
            r.query@ == Seq::<char>::empty(),
            r.limit == 20,
    {
        SearchDocumentsQuery { query: String::new(), limit: 20 }
    }
}

impl SearchDocumentsQuery {
    pub fn new(query: String, limit: u32) -> (r: SearchDocumentsQuery)
        ensures
            r == (SearchDocumentsQuery { query, limit }),
    {
        SearchDocumentsQuery { query, limit }
    }
}

} // verus!
