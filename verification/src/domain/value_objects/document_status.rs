//! Lifecycle status of a document.

use vstd::prelude::*;

verus! {

/// The status of a document in its lifecycle.
#[derive(Debug, Clone, Copy, PartialEq, Eq, Structural, Hash)]
pub enum DocumentStatus {
    Draft,
    Scanned,
    Processing,
    Processed,
    Archived,
    Deleted,
}

/// A document is active until it is archived or deleted.
pub open spec fn spec_is_active(s: DocumentStatus) -> bool {
    match s {
        DocumentStatus::Draft | DocumentStatus::Scanned | DocumentStatus::Processing
        | DocumentStatus::Processed => true,
        _ => false,
    }
}

/// Only drafts and freshly scanned documents may be edited.
pub open spec fn spec_is_editable(s: DocumentStatus) -> bool {
    s == DocumentStatus::Draft || s == DocumentStatus::Scanned
}

impl DocumentStatus {
    /// Check if the document is in an active state.
    pub fn is_active(&self) -> (r: bool)
        ensures
            r == spec_is_active(*self),
    {
        match self {
            DocumentStatus::Draft | DocumentStatus::Scanned | DocumentStatus::Processing
            | DocumentStatus::Processed => true,
            _ => false,
        }
    }

    /// Check if the document can be edited.
    pub fn is_editable(&self) -> (r: bool)
        ensures
            r == spec_is_editable(*self),
    {
        match self {
            DocumentStatus::Draft | DocumentStatus::Scanned => true,
            _ => false,
        }
    }

    /// Every status, in lifecycle order.
    pub fn all() -> (r: Vec<DocumentStatus>)
        ensures
            r@ == todos_los_estados(),
    {
        vec![
            DocumentStatus::Draft,
            DocumentStatus::Scanned,
            DocumentStatus::Processing,
            DocumentStatus::Processed,
            DocumentStatus::Archived,
            DocumentStatus::Deleted,
        ]
    }

    /// The display name of the status.
    pub fn to_string(&self) -> (r: String)
        ensures
            r@ == nombre_estado(*self),
    {
        match self {
            DocumentStatus::Draft => String::from_str("Draft"),
            DocumentStatus::Scanned => String::from_str("Scanned"),
            DocumentStatus::Processing => String::from_str("Processing"),
            DocumentStatus::Processed => String::from_str("Processed"),
            DocumentStatus::Archived => String::from_str("Archived"),
            DocumentStatus::Deleted => String::from_str("Deleted"),
        }
    }
}

/// Every status, in lifecycle order.
pub open spec fn todos_los_estados() -> Seq<DocumentStatus> {
    seq![
        DocumentStatus::Draft,
        DocumentStatus::Scanned,
        DocumentStatus::Processing,
        DocumentStatus::Processed,
        DocumentStatus::Archived,
        DocumentStatus::Deleted,
    ]
}

/// The display name of each status.
pub open spec fn nombre_estado(s: DocumentStatus) -> Seq<char> {
    match s {
        DocumentStatus::Draft => "Draft"@,
        DocumentStatus::Scanned => "Scanned"@,
        DocumentStatus::Processing => "Processing"@,
        DocumentStatus::Processed => "Processed"@,
        DocumentStatus::Archived => "Archived"@,
        DocumentStatus::Deleted => "Deleted"@,
    }
}

impl Default for DocumentStatus {
    /// New documents start as drafts.
    fn default() -> (r: DocumentStatus)
        ensures
            r == DocumentStatus::Draft,
    {
        DocumentStatus::Draft
    }
}

} // verus!
