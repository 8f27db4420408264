//! Domain models of official documents (oficios) and of the processing pipeline.

use vstd::prelude::*;

verus! {

/// Official document classification.
#[derive(Debug, Clone, Copy, PartialEq, Eq, Structural)]
pub enum Clasificacion {
    Entrante,
    Saliente,
    Interno,
    Confidencial,
    Urgente,
}

/// The stored name of each classification.
pub open spec fn nombre_clasificacion(c: Clasificacion) -> Seq<char> {
    match c {
        Clasificacion::Entrante => "ENTRANTE"@,
        Clasificacion::Saliente => "SALIENTE"@,
        Clasificacion::Interno => "INTERNO"@,
        Clasificacion::Confidencial => "CONFIDENCIAL"@,
        Clasificacion::Urgente => "URGENTE"@,
    }
}

impl Clasificacion {
    /// The stored name of the classification.
    pub fn to_string(&self) -> (r: String)
        ensures
            r@ == nombre_clasificacion(*self),
    {
        match self {
            Clasificacion::Entrante => String::from_str("ENTRANTE"),
            Clasificacion::Saliente => String::from_str("SALIENTE"),
            Clasificacion::Interno => String::from_str("INTERNO"),
            Clasificacion::Confidencial => String::from_str("CONFIDENCIAL"),
            Clasificacion::Urgente => String::from_str("URGENTE"),
        }
    }
}

/// Data to register a new oficio (second phase of the pipeline).
pub struct CrearOficioDto {
    pub numero_oficio: String,
    pub remitente: String,
    pub asunto: String,
    pub clasificacion: Clasificacion,
    pub fecha_oficio: String,
    pub ruta_pdf_temporal: String,
    pub palabras_clave: Vec<String>,
}

/// Metadata extracted by the AI model.
pub struct MetadatosExtraidos {
    pub numero_oficio: Option<String>,
    pub remitente: Option<String>,
    pub asunto: Option<String>,
    pub clasificacion_sugerida: Option<Clasificacion>,
    pub fecha_oficio: Option<String>,
    pub palabras_clave: Vec<String>,
    pub resumen_ejecutivo: String,
}

/// An indexed keyword of an oficio.
pub struct PalabraClave {
    pub id: i64,
    pub oficio_id: String,
    pub palabra: String,
}

/// State of the processing pipeline.
#[derive(Debug)]
pub enum EstadoPipeline {
    PendienteAnalisis,
    EnAnalisis,
    PendienteAuditoria,
    EnAuditoria,
    ListoParaPersistencia,
    Completado,
    Error(String),
}

/// System configuration.
pub struct Configuracion {
    pub gemini_api_key: String,
    pub directorio_base: String,
    pub dpi_escaneo: u32,
    pub timeout_http_ms: u64,
    pub ruta_db_sqlite: String,
}

impl Configuracion {
    /// The default configuration given the values of `GEMINI_API_KEY` and `APP_DATA_DIR`
    /// in the environment: no key when unset, `"./data"` as base directory when unset,
    /// 300 DPI, a 30 second HTTP timeout and the database at `"./data/oficios.db"`.
    pub fn desde_entorno(gemini_api_key: Option<String>, app_data_dir: Option<String>) -> (r: Configuracion)
        ensures
            match gemini_api_key {
                Some(k) => r.gemini_api_key == k,
                None => r.gemini_api_key@ == Seq::<char>::empty(),
            },
            match app_data_dir {
                Some(d) => r.directorio_base == d,
                None => r.directorio_base@ == "./data"@,
            },
            r.dpi_escaneo == 300,
            r.timeout_http_ms == 30000,
            r.ruta_db_sqlite@ == "./data/oficios.db"@,
    {
        Configuracion {
            gemini_api_key: match gemini_api_key {
                Some(k) => k,
                None => String::new(),
            },
            directorio_base: match app_data_dir {
                Some(d) => d,
                None => String::from_str("./data"),
            },
            dpi_escaneo: 300,
            timeout_http_ms: 30000,
            ruta_db_sqlite: String::from_str("./data/oficios.db"),
        }
    }
}

} // verus!
