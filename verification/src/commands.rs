//! Decisions of the interface commands of the pipeline: the initialization report, the
//! names of the stored PDFs, the performance limits and the error messages of each step.

use vstd::prelude::*;
use crate::domain::entities::document::{es_uuid_v4, nuevo_uuid};
use crate::models::CrearOficioDto;
use crate::texto::{a_cadena, a_caracteres, barras_a_guiones, reemplazar_barras, unir};

verus! {

/// Initialization report.
pub struct InicializacionResponse {
    pub exitoso: bool,
    pub gemini_disponible: bool,
    pub ocr_disponible: bool,
    pub escaneres_detectados: Vec<String>,
    pub mensaje: String,
}

/// The initialization report for the outcome of the checks.
pub fn respuesta_inicializacion(gemini_disponible: bool, ocr_disponible: bool, escaneres_detectados: Vec<String>) -> (r: InicializacionResponse)
    ensures
        r.exitoso,
        r.gemini_disponible == gemini_disponible,
        r.ocr_disponible == ocr_disponible,
        r.escaneres_detectados == escaneres_detectados,
        r.mensaje@ == "Aplicación inicializada correctamente"@,
{
    InicializacionResponse {
        exitoso: true,
        gemini_disponible,
        ocr_disponible,
        escaneres_detectados,
        mensaje: String::from_str("Aplicación inicializada correctamente"),
    }
}

/// The file name under which an oficio's PDF is kept: its number with every `'/'` made
/// `'_'`, then `".pdf"`.
pub fn nombre_pdf_permanente(numero_oficio: &str) -> (r: String)
    ensures
        r@ == barras_a_guiones(numero_oficio@) + ".pdf"@,
{
    let cs = a_caracteres(numero_oficio);
    let nombre = a_cadena(reemplazar_barras(cs.as_slice()).as_slice());
    unir(nombre.as_str(), ".pdf")
}

/// A fresh file name for the PDF of a page under analysis: a random version 4 UUID in
/// hyphenated form followed by `".pdf"`.
pub fn nombre_pdf_temporal() -> (r: String)
    ensures
        r@.len() == 40,
        r@.subrange(36, 40) == ".pdf"@,
        es_uuid_v4(r@.subrange(0, 36)),
{
    let id = nuevo_uuid();
    proof {
        reveal_strlit(".pdf");
    }
    let r = unir(id.as_str(), ".pdf");
    assert(r@.subrange(0, 36) =~= id@);
    r
}

/// The registration data with the PDF at its permanent path.
pub fn con_ruta_permanente(dto: CrearOficioDto, ruta: String) -> (r: CrearOficioDto)
    ensures
        r == (CrearOficioDto { ruta_pdf_temporal: ruta, ..dto }),
{
    let mut r = dto;
    r.ruta_pdf_temporal = ruta;
    r
}

/// The first phase (scan, OCR and analysis) took longer than its 5 second budget.
pub fn excede_limite_fase1(tiempo_ms: u64) -> (r: bool)
    ensures
        r == (tiempo_ms > 5000),
{
    tiempo_ms > 5000
}

/// OCR took longer than its 1.5 second budget.
pub fn excede_limite_ocr(tiempo_ms: u64) -> (r: bool)
    ensures
        r == (tiempo_ms > 1500),
{
    tiempo_ms > 1500
}

/// The steps of the interface commands that can fail.
#[derive(Debug, Clone, Copy, PartialEq, Eq, Structural)]
pub enum PasoComando {
    Escaneo,
    Ocr,
    ConversionImagen,
    Gemini,
    CreacionPdf,
    MovimientoPdf,
    BaseDeDatos,
    ObtencionOficios,
    Busqueda,
    Eliminacion,
}

/// The prefix that each step puts before the cause of its failure.
pub open spec fn prefijo_paso(p: PasoComando) -> Seq<char> {
    match p {
        PasoComando::Escaneo => "Error en escaneo: "@,
        PasoComando::Ocr => "Error en OCR: "@,
        PasoComando::ConversionImagen => "Error convirtiendo imagen: "@,
        PasoComando::Gemini => "Error en Gemini API: "@,
        PasoComando::CreacionPdf => "Error creando PDF: "@,
        PasoComando::MovimientoPdf => "Error moviendo PDF: "@,
        PasoComando::BaseDeDatos => "Error en base de datos: "@,
        PasoComando::ObtencionOficios => "Error obteniendo oficios: "@,
        PasoComando::Busqueda => "Error en búsqueda: "@,
        PasoComando::Eliminacion => "Error eliminando oficio: "@,
    }
}

impl PasoComando {
    /// The message reported when the step fails with the given cause.
    pub fn mensaje_error(&self, causa: &str) -> (r: String)
        ensures
            r@ == prefijo_paso(*self) + causa@,
    {
        let prefijo = match self {
            PasoComando::Escaneo => "Error en escaneo: ",
            PasoComando::Ocr => "Error en OCR: ",
            PasoComando::ConversionImagen => "Error convirtiendo imagen: ",
            PasoComando::Gemini => "Error en Gemini API: ",
            PasoComando::CreacionPdf => "Error creando PDF: ",
            PasoComando::MovimientoPdf => "Error moviendo PDF: ",
            PasoComando::BaseDeDatos => "Error en base de datos: ",
            PasoComando::ObtencionOficios => "Error obteniendo oficios: ",
            PasoComando::Busqueda => "Error en búsqueda: ",
            PasoComando::Eliminacion => "Error eliminando oficio: ",
        };
        unir(prefijo, causa)
    }
}

/// The message when a command needs the database before it was opened.
pub fn error_sin_base_de_datos() -> (r: String)
    ensures
        r@ == "Base de datos no inicializada"@,
{
    String::from_str("Base de datos no inicializada")
}

/// Where the first phase of the pipeline stands: each stage waits for the outcome of its
/// step, in the order scan, temporary image, OCR, image conversion, Gemini analysis, PDF.
pub enum EtapaFase1 {
    Inicio,
    Escaneando,
    GuardandoImagen,
    Reconociendo,
    Convirtiendo,
    Analizando,
    CreandoPdf,
    Terminada,
}

/// What the first phase asks the caller to do next.
pub enum AccionFase1 {
    Escanear,
    GuardarImagen,
    Reconocer,
    Convertir,
    Analizar,
    CrearPdf,
    /// Every step succeeded: report the result.
    Completar,
    /// A step failed: report this message.
    Fallar(String),
}

/// What the caller reports back: the start, or the outcome of the step asked for (the
/// cause's text when it failed).
pub enum EventoFase1 {
    Comenzar,
    Hecho,
    Fallo(String),
}

/// The event that each stage waits for.
pub open spec fn evento_admitido_fase1(etapa: EtapaFase1, evento: EventoFase1) -> bool {
    match etapa {
        EtapaFase1::Inicio => evento is Comenzar,
        EtapaFase1::Terminada => false,
        _ => !(evento is Comenzar),
    }
}

/// The message that reports a failure of the stage's step: the step's prefix and the
/// cause (saving the temporary image reports the cause alone).
pub open spec fn mensaje_fallo_fase1(etapa: EtapaFase1, causa: Seq<char>) -> Seq<char> {
    match etapa {
        EtapaFase1::Escaneando => prefijo_paso(PasoComando::Escaneo) + causa,
        EtapaFase1::Reconociendo => prefijo_paso(PasoComando::Ocr) + causa,
        EtapaFase1::Convirtiendo => prefijo_paso(PasoComando::ConversionImagen) + causa,
        EtapaFase1::Analizando => prefijo_paso(PasoComando::Gemini) + causa,
        EtapaFase1::CreandoPdf => prefijo_paso(PasoComando::CreacionPdf) + causa,
        _ => causa,
    }
}

/// The stage after a successful step, with the action it asks for.
pub open spec fn siguiente_fase1(etapa: EtapaFase1) -> (EtapaFase1, AccionFase1) {
    match etapa {
        EtapaFase1::Inicio => (EtapaFase1::Escaneando, AccionFase1::Escanear),
        EtapaFase1::Escaneando => (EtapaFase1::GuardandoImagen, AccionFase1::GuardarImagen),
        EtapaFase1::GuardandoImagen => (EtapaFase1::Reconociendo, AccionFase1::Reconocer),
        EtapaFase1::Reconociendo => (EtapaFase1::Convirtiendo, AccionFase1::Convertir),
        EtapaFase1::Convirtiendo => (EtapaFase1::Analizando, AccionFase1::Analizar),
        EtapaFase1::Analizando => (EtapaFase1::CreandoPdf, AccionFase1::CrearPdf),
        _ => (EtapaFase1::Terminada, AccionFase1::Completar),
    }
}

/// One step of the first phase: the steps run in order, and the first failure ends the
/// phase with its step's message.
pub open spec fn transicion_fase1(
    etapa: EtapaFase1,
    evento: EventoFase1,
    r: (EtapaFase1, AccionFase1),
) -> bool
    recommends
        evento_admitido_fase1(etapa, evento),
{
    match evento {
        EventoFase1::Fallo(causa) => r.0 is Terminada && (r.1 matches AccionFase1::Fallar(m)
            && m@ == mensaje_fallo_fase1(etapa, causa@)),
        _ => r == siguiente_fase1(etapa),
    }
}

/// Advances the first phase by one event.
pub fn paso_fase1(etapa: EtapaFase1, evento: EventoFase1) -> (r: (EtapaFase1, AccionFase1))
    requires
        evento_admitido_fase1(etapa, evento),
    ensures
        transicion_fase1(etapa, evento, r),
{
    match evento {
        EventoFase1::Fallo(causa) => {
            let m = match etapa {
                EtapaFase1::Escaneando => PasoComando::Escaneo.mensaje_error(causa.as_str()),
                EtapaFase1::Reconociendo => PasoComando::Ocr.mensaje_error(causa.as_str()),
                EtapaFase1::Convirtiendo => PasoComando::ConversionImagen.mensaje_error(causa.as_str()),
                EtapaFase1::Analizando => PasoComando::Gemini.mensaje_error(causa.as_str()),
                EtapaFase1::CreandoPdf => PasoComando::CreacionPdf.mensaje_error(causa.as_str()),
                _ => causa,
            };
            (EtapaFase1::Terminada, AccionFase1::Fallar(m))
        },
        _ => match etapa {
            EtapaFase1::Inicio => (EtapaFase1::Escaneando, AccionFase1::Escanear),
            EtapaFase1::Escaneando => (EtapaFase1::GuardandoImagen, AccionFase1::GuardarImagen),
            EtapaFase1::GuardandoImagen => (EtapaFase1::Reconociendo, AccionFase1::Reconocer),
            EtapaFase1::Reconociendo => (EtapaFase1::Convirtiendo, AccionFase1::Convertir),
            EtapaFase1::Convirtiendo => (EtapaFase1::Analizando, AccionFase1::Analizar),
            EtapaFase1::Analizando => (EtapaFase1::CreandoPdf, AccionFase1::CrearPdf),
            _ => (EtapaFase1::Terminada, AccionFase1::Completar),
        },
    }
}

} // verus!
