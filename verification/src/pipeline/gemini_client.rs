//! The Gemini document analysis protocol: upload the page image, ask for structured
//! metadata, then delete the upload at once (zero retention). This module holds the
//! addresses, the prompt and the reading of replies; the HTTP exchange happens at the
//! application's edge.

use vstd::prelude::*;
use crate::pipeline::error::{AppError, AppResult};
use crate::domain::entities::document::textos;
use crate::models::MetadatosExtraidos;
use crate::texto::{a_cadena, a_caracteres, quitar_prefijo, sin_prefijo, unir, unir3};

verus! {

/// The default base address of the Gemini API.
pub fn url_base_predeterminada() -> (r: String)
    ensures
        r@ == "https://generativelanguage.googleapis.com/v1beta"@,
{
    String::from_str("https://generativelanguage.googleapis.com/v1beta")
}

/// The parts of a Gemini client that the protocol reads: its API key and the base
/// address of the API. The HTTP connection it talks through is kept at the application's
/// edge.
pub struct GeminiClient {
    api_key: String,
    base_url: String,
}

impl GeminiClient {
    /// The API key the client sends.
    pub closed spec fn clave(&self) -> Seq<char> {
        self.api_key@
    }

    /// The base address the client talks to.
    pub closed spec fn base(&self) -> Seq<char> {
        self.base_url@
    }

    /// A client with the given API key, talking to the default base address.
    pub fn new(api_key: String) -> (r: GeminiClient)
        ensures
            r.clave() == api_key@,
            r.base() == "https://generativelanguage.googleapis.com/v1beta"@,
    {
        GeminiClient { api_key, base_url: url_base_predeterminada() }
    }

    /// The API key the client sends.
    pub fn api_key(&self) -> (r: &str)
        ensures
            r@ == self.clave(),
    {
        self.api_key.as_str()
    }

    /// The base address the client talks to.
    pub fn base_url(&self) -> (r: &str)
        ensures
            r@ == self.base(),
    {
        self.base_url.as_str()
    }

    /// Address for uploading the page image.
    pub fn direccion_subida(&self) -> (r: String)
        ensures
            r@ == self.base() + "/files?key="@ + self.clave(),
    {
        url_subida(self.base_url.as_str(), self.api_key.as_str())
    }

    /// Address for the structured inference.
    pub fn direccion_inferencia(&self) -> (r: String)
        ensures
            r@ == self.base() + "/models/gemini-1.5-pro:generateContent?key="@ + self.clave(),
    {
        url_inferencia(self.base_url.as_str(), self.api_key.as_str())
    }

    /// Address for deleting the uploaded file `file_id`.
    pub fn direccion_eliminacion(&self, file_id: &str) -> (r: String)
        ensures
            r@ == self.base() + "/files/"@ + file_id@ + "?key="@ + self.clave(),
    {
        url_eliminacion(self.base_url.as_str(), file_id, self.api_key.as_str())
    }

    /// Address of the connectivity check.
    pub fn direccion_modelos(&self) -> (r: String)
        ensures
            r@ == self.base() + "/models?key="@ + self.clave(),
    {
        url_modelos(self.base_url.as_str(), self.api_key.as_str())
    }
}

/// Address for uploading a file.
pub fn url_subida(base_url: &str, api_key: &str) -> (r: String)
    ensures
        r@ == base_url@ + "/files?key="@ + api_key@,
{
    unir3(base_url, "/files?key=", api_key)
}

/// Address for structured inference.
pub fn url_inferencia(base_url: &str, api_key: &str) -> (r: String)
    ensures
        r@ == base_url@ + "/models/gemini-1.5-pro:generateContent?key="@ + api_key@,
{
    unir3(base_url, "/models/gemini-1.5-pro:generateContent?key=", api_key)
}

/// Address for deleting an uploaded file.
pub fn url_eliminacion(base_url: &str, file_id: &str, api_key: &str) -> (r: String)
    ensures
        r@ == base_url@ + "/files/"@ + file_id@ + "?key="@ + api_key@,
{
    let mut r = unir3(base_url, "/files/", file_id);
    r.append("?key=");
    r.append(api_key);
    r
}

/// Address for listing models (the connectivity check).
pub fn url_modelos(base_url: &str, api_key: &str) -> (r: String)
    ensures
        r@ == base_url@ + "/models?key="@ + api_key@,
{
    unir3(base_url, "/models?key=", api_key)
}

/// The address by which an inference request refers to an uploaded file.
pub fn uri_archivo(file_id: &str) -> (r: String)
    ensures
        r@ == "https://generativelanguage.googleapis.com/v1beta/files/"@ + file_id@,
{
    unir("https://generativelanguage.googleapis.com/v1beta/files/", file_id)
}

/// The identifier of an uploaded file: its name without the `"files/"` prefix.
pub fn id_de_archivo(name: &str) -> (r: String)
    ensures
        r@ == sin_prefijo(name@, "files/"@),
{
    let cs = a_caracteres(name);
    let prefijo = a_caracteres("files/");
    a_cadena(quitar_prefijo(cs.as_slice(), prefijo.as_slice()).as_slice())
}

/// The start of the inference prompt, before the OCR text.
pub open spec fn inicio_prompt() -> Seq<char> {
    "Analiza este documento oficial y extrae los metadatos estructurados.\n            \nTEXTO OCR EXTRAÍDO:\n"@
}

/// The end of the inference prompt, after the OCR text.
pub open spec fn fin_prompt() -> Seq<char> {
    "\n\nInstrucciones:\n1. Extrae información precisa del documento\n2. Clasifica según tipología oficial mexicana\n3. Genera palabras clave relevantes para búsqueda\n4. Crea un resumen ejecutivo claro y conciso"@
}

/// The inference prompt for the OCR text of a page.
pub fn prompt_inferencia(texto_ocr: &str) -> (r: String)
    ensures
        r@ == inicio_prompt() + texto_ocr@ + fin_prompt(),
{
    unir3(
        "Analiza este documento oficial y extrae los metadatos estructurados.\n            \nTEXTO OCR EXTRAÍDO:\n",
        texto_ocr,
        "\n\nInstrucciones:\n1. Extrae información precisa del documento\n2. Clasifica según tipología oficial mexicana\n3. Genera palabras clave relevantes para búsqueda\n4. Crea un resumen ejecutivo claro y conciso",
    )
}

/// The type of a field of the structured answer.
#[derive(Debug, Clone, Copy, PartialEq, Eq, Structural)]
pub enum TipoCampo {
    /// A text (`"STRING"`).
    Texto,
    /// A list of texts (`"ARRAY"` of `"STRING"`).
    ListaDeTextos,
}

/// A field of the schema the structured answer must follow: its name, type, description
/// and, when not empty, the only values it may take.
pub struct CampoEsquema {
    pub nombre: String,
    pub tipo: TipoCampo,
    pub descripcion: String,
    pub valores: Vec<String>,
}

/// The structured-output inference request: the prompt, the uploaded image it refers to,
/// the MIME type the answer must have, and the schema of the answer (an object with the
/// given fields, of which `requeridos` must be present).
pub struct SolicitudInferencia {
    pub prompt: String,
    pub mime_imagen: String,
    pub uri_archivo: String,
    pub mime_respuesta: String,
    pub campos: Vec<CampoEsquema>,
    pub requeridos: Vec<String>,
}

/// A schema field as mathematical values: name, type, description, allowed values.
pub open spec fn vista_campo(c: CampoEsquema) -> (Seq<char>, TipoCampo, Seq<char>, Seq<Seq<char>>) {
    (c.nombre@, c.tipo, c.descripcion@, textos(c.valores@))
}

/// The schema fields as mathematical values.
pub open spec fn vista_campos(v: Seq<CampoEsquema>) -> Seq<(Seq<char>, TipoCampo, Seq<char>, Seq<Seq<char>>)> {
    v.map_values(|c: CampoEsquema| vista_campo(c))
}

/// The names of the classifications, as the structured answer writes them.
pub open spec fn valores_clasificacion() -> Seq<Seq<char>> {
    seq!["ENTRANTE"@, "SALIENTE"@, "INTERNO"@, "CONFIDENCIAL"@, "URGENTE"@]
}

/// The fields of the structured answer: the metadata of an oficio, by their names in the
/// answer's JSON.
pub open spec fn esquema_oficio() -> Seq<(Seq<char>, TipoCampo, Seq<char>, Seq<Seq<char>>)> {
    seq![
        ("numeroOficio"@, TipoCampo::Texto, "Número oficial del documento"@, Seq::empty()),
        ("remitente"@, TipoCampo::Texto, "Entidad o persona que emite el oficio"@, Seq::empty()),
        ("asunto"@, TipoCampo::Texto, "Tema principal del documento"@, Seq::empty()),
        ("clasificacionSugerida"@, TipoCampo::Texto, "Clasificación documental sugerida"@, valores_clasificacion()),
        ("fechaOficio"@, TipoCampo::Texto, "Fecha del oficio en formato YYYY-MM-DD"@, Seq::empty()),
        ("palabrasClave"@, TipoCampo::ListaDeTextos, "Palabras clave indexables"@, Seq::empty()),
        ("resumenEjecutivo"@, TipoCampo::Texto, "Resumen ejecutivo del contenido (max 200 palabras)"@, Seq::empty()),
    ]
}

/// The fields the structured answer must hold.
pub open spec fn campos_requeridos() -> Seq<Seq<char>> {
    seq!["asunto"@, "resumenEjecutivo"@, "palabrasClave"@]
}

fn campo(nombre: &str, tipo: TipoCampo, descripcion: &str) -> (r: CampoEsquema)
    ensures
        vista_campo(r) == (nombre@, tipo, descripcion@, Seq::<Seq<char>>::empty()),
{
    let r = CampoEsquema {
        nombre: String::from_str(nombre),
        tipo,
        descripcion: String::from_str(descripcion),
        valores: Vec::new(),
    };
    assert(textos(r.valores@) =~= Seq::<Seq<char>>::empty());
    r
}

/// The inference request for the uploaded page `file_id` with its OCR text: the prompt,
/// the PNG image by its file address, a JSON answer following `esquema_oficio`, with
/// `asunto`, `resumenEjecutivo` and `palabrasClave` required.
pub fn solicitud_inferencia(file_id: &str, texto_ocr: &str) -> (r: SolicitudInferencia)
    ensures
        r.prompt@ == inicio_prompt() + texto_ocr@ + fin_prompt(),
        r.mime_imagen@ == "image/png"@,
        r.uri_archivo@ == "https://generativelanguage.googleapis.com/v1beta/files/"@ + file_id@,
        r.mime_respuesta@ == "application/json"@,
        vista_campos(r.campos@) == esquema_oficio(),
        textos(r.requeridos@) == campos_requeridos(),
{
    let valores = vec![
        String::from_str("ENTRANTE"),
        String::from_str("SALIENTE"),
        String::from_str("INTERNO"),
        String::from_str("CONFIDENCIAL"),
        String::from_str("URGENTE"),
    ];
    proof {
        assert(textos(valores@) =~= valores_clasificacion());
    }
    let clasificacion = CampoEsquema {
        nombre: String::from_str("clasificacionSugerida"),
        tipo: TipoCampo::Texto,
        descripcion: String::from_str("Clasificación documental sugerida"),
        valores,
    };
    let campos = vec![
        campo("numeroOficio", TipoCampo::Texto, "Número oficial del documento"),
        campo("remitente", TipoCampo::Texto, "Entidad o persona que emite el oficio"),
        campo("asunto", TipoCampo::Texto, "Tema principal del documento"),
        clasificacion,
        campo("fechaOficio", TipoCampo::Texto, "Fecha del oficio en formato YYYY-MM-DD"),
        campo("palabrasClave", TipoCampo::ListaDeTextos, "Palabras clave indexables"),
        campo("resumenEjecutivo", TipoCampo::Texto, "Resumen ejecutivo del contenido (max 200 palabras)"),
    ];
    let requeridos = vec![
        String::from_str("asunto"),
        String::from_str("resumenEjecutivo"),
        String::from_str("palabrasClave"),
    ];
    proof {
        assert(vista_campos(campos@) =~= esquema_oficio());
        assert(textos(requeridos@) =~= campos_requeridos());
    }
    SolicitudInferencia {
        prompt: prompt_inferencia(texto_ocr),
        mime_imagen: String::from_str("image/png"),
        uri_archivo: uri_archivo(file_id),
        mime_respuesta: String::from_str("application/json"),
        campos,
        requeridos,
    }
}

/// The part of the multipart upload that carries the page image: its form field, file
/// name and MIME type.
pub struct ParteSubida {
    pub campo: String,
    pub nombre_archivo: String,
    pub mime: String,
}

/// The upload part of the page image: field `"file"`, file name `"documento.png"`, MIME
/// type `"image/png"`.
pub fn parte_subida() -> (r: ParteSubida)
    ensures
        r.campo@ == "file"@,
        r.nombre_archivo@ == "documento.png"@,
        r.mime@ == "image/png"@,
{
    ParteSubida {
        campo: String::from_str("file"),
        nombre_archivo: String::from_str("documento.png"),
        mime: String::from_str("image/png"),
    }
}

/// The JSON text of an inference reply: the text of the first part of the first candidate;
/// an empty reply is an error. Each candidate is given as the texts of its parts.
pub fn texto_de_inferencia(candidates: Vec<Vec<String>>) -> (r: AppResult<String>)
    ensures
        candidates@.len() > 0 && candidates@[0]@.len() > 0 ==> (r matches Ok(t) && t@ == candidates@[0]@[0]@),
        !(candidates@.len() > 0 && candidates@[0]@.len() > 0) ==> (r matches Err(AppError::GeminiApi(m)) && m@ == "Respuesta vacía de Gemini"@),
{
    if candidates.len() > 0 && candidates[0].len() > 0 {
        Ok(candidates[0][0].clone())
    } else {
        Err(AppError::GeminiApi(String::from_str("Respuesta vacía de Gemini")))
    }
}

/// The requests of the analysis that can fail.
#[derive(Debug, Clone, Copy, PartialEq, Eq, Structural)]
pub enum PasoGemini {
    /// Building the multipart form of the upload.
    CreacionMultipart,
    /// Uploading the page image.
    Subida,
    /// The structured inference.
    Inferencia,
    /// Deleting the upload.
    Eliminacion,
}

/// What a failure to send the request of each step is reported as, before the cause.
pub open spec fn contexto_envio(p: PasoGemini) -> Seq<char> {
    match p {
        PasoGemini::CreacionMultipart => "Falló creación de multipart"@,
        PasoGemini::Subida => "Falló upload"@,
        PasoGemini::Inferencia => "Falló inferencia"@,
        PasoGemini::Eliminacion => "Falló DELETE"@,
    }
}

/// The name under which a refused reply of the upload or the inference is reported.
pub open spec fn etiqueta_estado(p: PasoGemini) -> Seq<char> {
    match p {
        PasoGemini::Subida => "Upload"@,
        _ => "Inferencia"@,
    }
}

/// The error for a refused reply of the upload or of the inference, with the reply's
/// status line and body.
pub fn error_de_estado(paso: PasoGemini, estado: &str, cuerpo: &str) -> (r: AppError)
    requires
        paso == PasoGemini::Subida || paso == PasoGemini::Inferencia,
    ensures
        r matches AppError::GeminiApi(m) && m@ == etiqueta_estado(paso) + " falló con "@ + estado@ + ": "@ + cuerpo@,
{
    let etiqueta = match paso {
        PasoGemini::Subida => "Upload",
        _ => "Inferencia",
    };
    let mut m = unir3(etiqueta, " falló con ", estado);
    m.append(": ");
    m.append(cuerpo);
    AppError::GeminiApi(m)
}

/// The error for a request of the given step that could not be built or sent, with the
/// cause.
pub fn error_de_envio(paso: PasoGemini, detalle: &str) -> (r: AppError)
    ensures
        r matches AppError::GeminiApi(m) && m@ == contexto_envio(paso) + ": "@ + detalle@,
{
    let contexto = match paso {
        PasoGemini::CreacionMultipart => "Falló creación de multipart",
        PasoGemini::Subida => "Falló upload",
        PasoGemini::Inferencia => "Falló inferencia",
        PasoGemini::Eliminacion => "Falló DELETE",
    };
    AppError::GeminiApi(unir3(contexto, ": ", detalle))
}

/// Where a document analysis stands.
pub enum EtapaAnalisis {
    /// Nothing done yet.
    Inicio,
    /// The page image is being uploaded.
    Subiendo,
    /// Structured inference runs on the uploaded file.
    Infiriendo { file_id: String },
    /// The uploaded file is being deleted; the inference result waits to be returned.
    Eliminando { file_id: String, resultado: AppResult<MetadatosExtraidos> },
    /// The result has been returned.
    Terminado,
}

/// What the analysis asks the caller to do next.
pub enum AccionAnalisis {
    SubirArchivo,
    EjecutarInferencia { file_id: String },
    EliminarArchivo { file_id: String },
    Responder(AppResult<MetadatosExtraidos>),
}

/// What the caller reports back.
pub enum EventoAnalisis {
    Comenzar,
    Subida(AppResult<String>),
    Inferencia(AppResult<MetadatosExtraidos>),
    Eliminacion(AppResult<()>),
}

/// The event that each stage waits for.
pub open spec fn evento_admitido(etapa: EtapaAnalisis, evento: EventoAnalisis) -> bool {
    match etapa {
        EtapaAnalisis::Inicio => evento is Comenzar,
        EtapaAnalisis::Subiendo => evento is Subida,
        EtapaAnalisis::Infiriendo { .. } => evento is Inferencia,
        EtapaAnalisis::Eliminando { .. } => evento is Eliminacion,
        EtapaAnalisis::Terminado => false,
    }
}

/// One step of the analysis: upload, then infer on the upload, then delete the upload
/// whatever the inference gave, then return the inference result whatever the deletion
/// gave. A failed upload is returned at once: nothing was uploaded, so nothing is deleted.
pub open spec fn transicion(etapa: EtapaAnalisis, evento: EventoAnalisis) -> (EtapaAnalisis, AccionAnalisis)
    recommends
        evento_admitido(etapa, evento),
{
    match (etapa, evento) {
        (EtapaAnalisis::Inicio, EventoAnalisis::Comenzar) => (EtapaAnalisis::Subiendo, AccionAnalisis::SubirArchivo),
        (EtapaAnalisis::Subiendo, EventoAnalisis::Subida(Ok(id))) => (
            EtapaAnalisis::Infiriendo { file_id: id },
            AccionAnalisis::EjecutarInferencia { file_id: id },
        ),
        (EtapaAnalisis::Subiendo, EventoAnalisis::Subida(Err(e))) => (
            EtapaAnalisis::Terminado,
            AccionAnalisis::Responder(Err(e)),
        ),
        (EtapaAnalisis::Infiriendo { file_id }, EventoAnalisis::Inferencia(r)) => (
            EtapaAnalisis::Eliminando { file_id, resultado: r },
            AccionAnalisis::EliminarArchivo { file_id },
        ),
        (EtapaAnalisis::Eliminando { file_id, resultado }, EventoAnalisis::Eliminacion(_)) => (
            EtapaAnalisis::Terminado,
            AccionAnalisis::Responder(resultado),
        ),
        _ => (EtapaAnalisis::Terminado, AccionAnalisis::SubirArchivo),
    }
}

/// Advances the analysis by one event.
pub fn paso_analisis(etapa: EtapaAnalisis, evento: EventoAnalisis) -> (r: (EtapaAnalisis, AccionAnalisis))
    requires
        evento_admitido(etapa, evento),
    ensures
        r == transicion(etapa, evento),
{
    match etapa {
        EtapaAnalisis::Inicio => (EtapaAnalisis::Subiendo, AccionAnalisis::SubirArchivo),
        EtapaAnalisis::Subiendo => match evento {
            EventoAnalisis::Subida(Ok(id)) => {
                let copia = id.clone();
                (EtapaAnalisis::Infiriendo { file_id: id }, AccionAnalisis::EjecutarInferencia { file_id: copia })
            },
            EventoAnalisis::Subida(Err(e)) => (EtapaAnalisis::Terminado, AccionAnalisis::Responder(Err(e))),
            _ => (EtapaAnalisis::Terminado, AccionAnalisis::SubirArchivo),
        },
        EtapaAnalisis::Infiriendo { file_id } => match evento {
            EventoAnalisis::Inferencia(r) => {
                let copia = file_id.clone();
                (EtapaAnalisis::Eliminando { file_id, resultado: r }, AccionAnalisis::EliminarArchivo { file_id: copia })
            },
            _ => (EtapaAnalisis::Terminado, AccionAnalisis::SubirArchivo),
        },
        EtapaAnalisis::Eliminando { file_id, resultado } => (EtapaAnalisis::Terminado, AccionAnalisis::Responder(resultado)),
        EtapaAnalisis::Terminado => (EtapaAnalisis::Terminado, AccionAnalisis::SubirArchivo),
    }
}

} // verus!
