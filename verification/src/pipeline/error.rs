//! Errors of the scanning pipeline.

use vstd::prelude::*;
use vstd::std_specs::convert::FromSpecImpl;
use crate::texto::unir;

verus! {

/// Errors of the scanning pipeline. Failures reported by outside services (database,
/// input/output, JSON, HTTP) carry their message.
#[derive(Debug)]
pub enum AppError {
    Hardware(String),
    Ocr(String),
    Pdf(String),
    GeminiApi(String),
    Database(String),
    Io(String),
    Json(String),
    Http(String),
    Validacion(String),
    Interno(String),
}

/// The result of a pipeline step.
pub type AppResult<T> = Result<T, AppError>;

/// The message of each pipeline error.
pub open spec fn mensaje_app(e: AppError) -> Seq<char> {
    match e {
        AppError::Hardware(m) => "Error de hardware: "@ + m@,
        AppError::Ocr(m) => "Error de OCR: "@ + m@,
        AppError::Pdf(m) => "Error de procesamiento PDF: "@ + m@,
        AppError::GeminiApi(m) => "Error de comunicación con Gemini API: "@ + m@,
        AppError::Database(m) => "Error de base de datos: "@ + m@,
        AppError::Io(m) => "Error de E/S: "@ + m@,
        AppError::Json(m) => "Error de serialización JSON: "@ + m@,
        AppError::Http(m) => "Error HTTP: "@ + m@,
        AppError::Validacion(m) => "Error de validación: "@ + m@,
        AppError::Interno(m) => "Error interno: "@ + m@,
    }
}

impl AppError {
    /// The message of the error.
    pub fn to_string(&self) -> (r: String)
        ensures
            r@ == mensaje_app(*self),
    {
        match self {
            AppError::Hardware(m) => unir("Error de hardware: ", m.as_str()),
            AppError::Ocr(m) => unir("Error de OCR: ", m.as_str()),
            AppError::Pdf(m) => unir("Error de procesamiento PDF: ", m.as_str()),
            AppError::GeminiApi(m) => unir("Error de comunicación con Gemini API: ", m.as_str()),
            AppError::Database(m) => unir("Error de base de datos: ", m.as_str()),
            AppError::Io(m) => unir("Error de E/S: ", m.as_str()),
            AppError::Json(m) => unir("Error de serialización JSON: ", m.as_str()),
            AppError::Http(m) => unir("Error HTTP: ", m.as_str()),
            AppError::Validacion(m) => unir("Error de validación: ", m.as_str()),
            AppError::Interno(m) => unir("Error interno: ", m.as_str()),
        }
    }
}

impl From<String> for AppError {
    /// A bare message is an internal error.
    fn from(msg: String) -> (r: AppError) {
        AppError::Interno(msg)
    }
}

impl FromSpecImpl<String> for AppError {
    open spec fn obeys_from_spec() -> bool {
        true
    }

    open spec fn from_spec(msg: String) -> AppError {
        AppError::Interno(msg)
    }
}

} // verus!
