//! Infrastructure errors.

use vstd::prelude::*;
use crate::texto::unir;

verus! {

#[verifier::external_type_specification]
#[verifier::external_body]
pub struct ExSerdeJsonError(serde_json::Error);

/// Failures of the infrastructure layer, each with its message.
#[derive(Debug, PartialEq, Eq)]
pub enum InfrastructureError {
    Database(String),
    FileSystem(String),
    ApiClient(String),
    Serialization(String),
    Configuration(String),
}

/// The message of each infrastructure error.
pub open spec fn mensaje_infraestructura(e: InfrastructureError) -> Seq<char> {
    match e {
        InfrastructureError::Database(m) => "Database error: "@ + m@,
        InfrastructureError::FileSystem(m) => "File system error: "@ + m@,
        InfrastructureError::ApiClient(m) => "API client error: "@ + m@,
        InfrastructureError::Serialization(m) => "Serialization error: "@ + m@,
        InfrastructureError::Configuration(m) => "Configuration error: "@ + m@,
    }
}

/// The message of a JSON error.
///
/// Trusted: the `Display` of `serde_json::Error`; the error is opaque here, so nothing is
/// claimed of the text.
#[verifier::external_body]
fn mensaje_json(err: &serde_json::Error) -> String {
    err.to_string()
}

impl InfrastructureError {
    /// The message of the error.
    pub fn to_string(&self) -> (r: String)
        ensures
            r@ == mensaje_infraestructura(*self),
    {
        match self {
            InfrastructureError::Database(m) => unir("Database error: ", m.as_str()),
            InfrastructureError::FileSystem(m) => unir("File system error: ", m.as_str()),
            InfrastructureError::ApiClient(m) => unir("API client error: ", m.as_str()),
            InfrastructureError::Serialization(m) => unir("Serialization error: ", m.as_str()),
            InfrastructureError::Configuration(m) => unir("Configuration error: ", m.as_str()),
        }
    }

    /// A JSON failure becomes a serialization error carrying the JSON error's message.
    pub fn from(err: serde_json::Error) -> (r: InfrastructureError)
        ensures
            r is Serialization,
    {
        InfrastructureError::Serialization(mensaje_json(&err))
    }
}

} // verus!
