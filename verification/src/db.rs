//! Local SQLite persistence of oficios: what is written and how the database's answers
//! are read. The SQL statements run at the application's edge.

use vstd::prelude::*;
use crate::domain::entities::document::es_uuid_v4;
use crate::domain::entities::document::{nuevo_uuid, textos};
use crate::models::{nombre_clasificacion, CrearOficioDto};
use crate::pipeline::error::{AppError, AppResult};
use crate::reloj::{ahora_rfc3339, es_rfc3339_utc};
use crate::texto::unir3;

verus! {

/// Database statistics.
#[derive(Debug, Clone, Copy, PartialEq, Eq, Structural)]
pub struct EstadisticasDb {
    pub total_oficios: u64,
    pub total_palabras_clave: u64,
}

impl EstadisticasDb {
    /// The statistics for the counts the database returned (as 64-bit integers).
    pub fn desde_conteos(total_oficios: i64, total_palabras_clave: i64) -> (r: EstadisticasDb)
        ensures
            r.total_oficios == total_oficios as u64,
            r.total_palabras_clave == total_palabras_clave as u64,
    {
        EstadisticasDb { total_oficios: total_oficios as u64, total_palabras_clave: total_palabras_clave as u64 }
    }
}

/// The row of a new oficio and the keywords to index with it.
pub struct RegistroOficio {
    pub id: String,
    pub numero_oficio: String,
    pub remitente: String,
    pub asunto: String,
    pub clasificacion: String,
    pub fecha_oficio: String,
    pub fecha_registro: String,
    pub ruta_pdf_local: String,
    pub palabras_clave: Vec<String>,
}

/// The record to insert for a new oficio: a fresh identifier, the registration time (RFC
/// 3339 text in UTC), the
/// oficio's fields with its classification by name, its PDF at the given path, and each of
/// its keywords.
pub fn preparar_registro(dto: &CrearOficioDto) -> (r: RegistroOficio)
    ensures
        es_uuid_v4(r.id@),
        r.numero_oficio@ == dto.numero_oficio@,
        r.remitente@ == dto.remitente@,
        r.asunto@ == dto.asunto@,
        r.clasificacion@ == nombre_clasificacion(dto.clasificacion),
        r.fecha_oficio@ == dto.fecha_oficio@,
        es_rfc3339_utc(r.fecha_registro@),
        r.ruta_pdf_local@ == dto.ruta_pdf_temporal@,
        textos(r.palabras_clave@) == textos(dto.palabras_clave@),
{
    let palabras_clave = dto.palabras_clave.clone();
    assert(textos(palabras_clave@) =~= textos(dto.palabras_clave@));
    RegistroOficio {
        id: nuevo_uuid(),
        numero_oficio: dto.numero_oficio.clone(),
        remitente: dto.remitente.clone(),
        asunto: dto.asunto.clone(),
        clasificacion: dto.clasificacion.to_string(),
        fecha_oficio: dto.fecha_oficio.clone(),
        fecha_registro: ahora_rfc3339(),
        ruta_pdf_local: dto.ruta_pdf_temporal.clone(),
        palabras_clave,
    }
}

/// The SQL `LIKE` pattern that finds the word anywhere in a keyword.
pub fn patron_busqueda(palabra: &str) -> (r: String)
    ensures
        r@ == "%"@ + palabra@ + "%"@,
{
    unir3("%", palabra, "%")
}

/// The outcome of deleting an oficio, from the number of rows the deletion removed:
/// none means that no oficio had the identifier.
pub fn resultado_eliminacion(filas_afectadas: u64) -> (r: AppResult<()>)
    ensures
        filas_afectadas > 0 <==> r is Ok,
        filas_afectadas == 0 ==> (r matches Err(AppError::Validacion(m)) && m@ == "Oficio no encontrado"@),
{
    if filas_afectadas == 0 {
        Err(AppError::Validacion(String::from_str("Oficio no encontrado")))
    } else {
        Ok(())
    }
}

} // verus!
