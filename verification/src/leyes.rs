//! Properties of the library that span several operations.

use vstd::prelude::*;
use crate::commands::{
    evento_admitido_fase1, siguiente_fase1, transicion_fase1, AccionFase1, EtapaFase1, EventoFase1,
};
use crate::domain::entities::document::{con_etiqueta, tiene_etiqueta};
use crate::application::dto::{vista_dto, DocumentDto};
use crate::domain::entities::{Document, DocumentView};
use crate::domain::value_objects::file_path::validar_ruta;
use crate::domain::repositories::{pagina, DocumentRepository};
use crate::domain::services::document_service::DocumentService;
use crate::domain::value_objects::document_status::{
    nombre_estado, spec_is_active, spec_is_editable, todos_los_estados,
};
use crate::domain::value_objects::DocumentStatus;
use crate::infrastructure::api_clients::{es_vineta, puntos_clave, puntos_de_lineas, texto_de_vineta, vineta};
use crate::models::{nombre_clasificacion, Clasificacion, MetadatosExtraidos};
use crate::texto::{barras_a_guiones, lema_recortado, lineas, recortado, sin_prefijo_repetido};
use crate::pipeline::error::{AppError, AppResult};
use crate::pipeline::gemini_client::{
    campos_requeridos, esquema_oficio, evento_admitido, transicion, valores_clasificacion,
    AccionAnalisis, EtapaAnalisis, EventoAnalisis, TipoCampo,
};
use crate::domain::services::scanner_service::tipo_mime;

verus! {

/// Zero retention: once the page image has been uploaded under `file_id`, the analysis
/// runs the inference on that upload, then asks to delete exactly that upload whatever
/// the inference gave, and only then returns the inference result, whatever the
/// deletion gave.
pub proof fn ley_cero_retencion(
    file_id: String,
    inferencia: AppResult<MetadatosExtraidos>,
    eliminacion: AppResult<()>,
)
    ensures
        transicion(EtapaAnalisis::Inicio, EventoAnalisis::Comenzar) == (
            EtapaAnalisis::Subiendo,
            AccionAnalisis::SubirArchivo,
        ),
        evento_admitido(EtapaAnalisis::Subiendo, EventoAnalisis::Subida(Ok(file_id))),
        transicion(EtapaAnalisis::Subiendo, EventoAnalisis::Subida(Ok(file_id))) == (
            EtapaAnalisis::Infiriendo { file_id },
            AccionAnalisis::EjecutarInferencia { file_id },
        ),
        evento_admitido(EtapaAnalisis::Infiriendo { file_id }, EventoAnalisis::Inferencia(inferencia)),
        transicion(EtapaAnalisis::Infiriendo { file_id }, EventoAnalisis::Inferencia(inferencia)) == (
            EtapaAnalisis::Eliminando { file_id, resultado: inferencia },
            AccionAnalisis::EliminarArchivo { file_id },
        ),
        evento_admitido(
            EtapaAnalisis::Eliminando { file_id, resultado: inferencia },
            EventoAnalisis::Eliminacion(eliminacion),
        ),
        transicion(
            EtapaAnalisis::Eliminando { file_id, resultado: inferencia },
            EventoAnalisis::Eliminacion(eliminacion),
        ) == (EtapaAnalisis::Terminado, AccionAnalisis::Responder(inferencia)),
{
}

/// A failed upload ends the analysis at once with that failure: nothing was uploaded,
/// so nothing is inferred or deleted.
pub proof fn ley_subida_fallida(error: AppError)
    ensures
        transicion(EtapaAnalisis::Subiendo, EventoAnalisis::Subida(Err(error))) == (
            EtapaAnalisis::Terminado,
            AccionAnalisis::Responder(Err::<MetadatosExtraidos, AppError>(error)),
        ),
{
}

/// A finished analysis waits for nothing more.
pub proof fn ley_analisis_terminado(evento: EventoAnalisis)
    ensures
        !evento_admitido(EtapaAnalisis::Terminado, evento),
{
}

/// A read after a save gives back the saved document, and leaves every other
/// identifier as it was. `despues` is the repository `antes` after a successful save of
/// `d`.
pub proof fn ley_guardar_y_leer<R: DocumentRepository>(antes: R, despues: R, d: DocumentView, otro: Seq<char>)
    requires
        despues.documentos() == antes.documentos().insert(d.id, d),
        otro != d.id,
    ensures
        despues.documentos().contains_key(d.id),
        despues.documentos()[d.id] == d,
        despues.documentos().contains_key(otro) == antes.documentos().contains_key(otro),
        antes.documentos().contains_key(otro) ==> despues.documentos()[otro] == antes.documentos()[otro],
{
}

/// Saving the same document twice leaves the store as saving it once. `una` is `antes`
/// after one successful save of `d`, `dos` is `una` after another.
pub proof fn ley_guardar_dos_veces<R: DocumentRepository>(antes: R, una: R, dos: R, d: DocumentView)
    requires
        una.documentos() == antes.documentos().insert(d.id, d),
        dos.documentos() == una.documentos().insert(d.id, d),
    ensures
        dos.documentos() == una.documentos(),
{
    assert(dos.documentos() =~= una.documentos());
}

/// After a delete nothing is found under the identifier and every other identifier
/// keeps its document; deleting an identifier that is not stored changes nothing.
/// `despues` is the repository `antes` after a successful delete of `id`.
pub proof fn ley_eliminar<R: DocumentRepository>(antes: R, despues: R, id: Seq<char>, otro: Seq<char>)
    requires
        despues.documentos() == antes.documentos().remove(id),
        otro != id,
    ensures
        !despues.documentos().contains_key(id),
        despues.documentos().contains_key(otro) == antes.documentos().contains_key(otro),
        antes.documentos().contains_key(otro) ==> despues.documentos()[otro] == antes.documentos()[otro],
        !antes.documentos().contains_key(id) ==> despues.documentos() == antes.documentos(),
{
    if !antes.documentos().contains_key(id) {
        assert(despues.documentos() =~= antes.documentos());
    }
}

/// Updating the content of a stored document and reading it back gives the new
/// content, with identifier, title, path, tags and creation time unchanged. `despues` is
/// the service `antes` after `update_content(id, content)` returned `d`.
pub proof fn ley_actualizar_y_leer<R: DocumentRepository>(
    antes: DocumentService<R>,
    despues: DocumentService<R>,
    id: Seq<char>,
    content: Seq<char>,
    d: DocumentView,
)
    requires
        antes.documentos().contains_key(id),
        d == (DocumentView { content, updated_at: d.updated_at, ..antes.documentos()[id] }),
        despues.documentos() == antes.documentos().insert(id, d),
    ensures
        despues.documentos().contains_key(id),
        despues.documentos()[id].content == content,
        despues.documentos()[id].id == antes.documentos()[id].id,
        despues.documentos()[id].title == antes.documentos()[id].title,
        despues.documentos()[id].file_path == antes.documentos()[id].file_path,
        despues.documentos()[id].tags == antes.documentos()[id].tags,
        despues.documentos()[id].created_at == antes.documentos()[id].created_at,
        despues.documentos().dom() == antes.documentos().dom(),
{
    assert(despues.documentos().dom() =~= antes.documentos().dom());
}

/// A page holds at most `limit` documents, all of them from the listing, starting at
/// `offset`; a page that starts past the end is empty.
pub proof fn ley_pagina(s: Seq<DocumentView>, offset: int, limit: int)
    requires
        0 <= offset,
        0 <= limit,
    ensures
        pagina(s, offset, limit).len() <= limit,
        offset >= s.len() ==> pagina(s, offset, limit).len() == 0,
        offset < s.len() ==> pagina(s, offset, limit).len() == (if offset + limit <= s.len() {
            limit
        } else {
            s.len() - offset
        }),
        forall|i: int| 0 <= i < pagina(s, offset, limit).len() ==> #[trigger] pagina(s, offset, limit)[i] == s[offset + i],
{
}

/// Consecutive pages follow each other: the page of `a` documents at `offset`, then the
/// page of `b` documents right after it, make the page of `a + b` documents at `offset`.
pub proof fn ley_paginas_consecutivas(s: Seq<DocumentView>, offset: int, a: int, b: int)
    requires
        0 <= offset,
        0 <= a,
        0 <= b,
    ensures
        pagina(s, offset, a) + pagina(s, offset + a, b) == pagina(s, offset, a + b),
{
    assert(pagina(s, offset, a) + pagina(s, offset + a, b) =~= pagina(s, offset, a + b));
}

/// Adding a tag twice is adding it once; afterwards the document has the tag, and a
/// tag list without repeats stays without repeats.
pub proof fn ley_agregar_etiqueta(tags: Seq<Seq<char>>, tag: Seq<char>)
    ensures
        con_etiqueta(con_etiqueta(tags, tag), tag) == con_etiqueta(tags, tag),
        tiene_etiqueta(con_etiqueta(tags, tag), tag),
        tags.no_duplicates() ==> con_etiqueta(tags, tag).no_duplicates(),
        forall|t: Seq<char>| tiene_etiqueta(tags, t) ==> tiene_etiqueta(con_etiqueta(tags, tag), t),
{
    let r = con_etiqueta(tags, tag);
    if !tiene_etiqueta(tags, tag) {
        assert(r[tags.len() as int] == tag);
        assert(tiene_etiqueta(r, tag));
        assert forall|t: Seq<char>| tiene_etiqueta(tags, t) implies tiene_etiqueta(r, t) by {
            let i = choose|i: int| 0 <= i < tags.len() && tags[i] == t;
            assert(r[i] == t);
        }
    }
}

/// Every editable document is active.
pub proof fn ley_editable_es_activo(s: DocumentStatus)
    ensures
        spec_is_editable(s) ==> spec_is_active(s),
{
}

/// The list of statuses holds every status exactly once.
pub proof fn ley_todos_los_estados(s: DocumentStatus)
    ensures
        todos_los_estados().contains(s),
        todos_los_estados().no_duplicates(),
{
    let t = todos_los_estados();
    match s {
        DocumentStatus::Draft => assert(t[0] == s),
        DocumentStatus::Scanned => assert(t[1] == s),
        DocumentStatus::Processing => assert(t[2] == s),
        DocumentStatus::Processed => assert(t[3] == s),
        DocumentStatus::Archived => assert(t[4] == s),
        DocumentStatus::Deleted => assert(t[5] == s),
    }
}

/// Every key point read from a reply is trimmed: it neither starts nor ends with
/// whitespace, and there are no more key points than lines.
pub proof fn ley_puntos_clave_recortados(respuesta: Seq<char>)
    ensures
        puntos_clave(respuesta).len() <= lineas(respuesta).len(),
        forall|i: int| 0 <= i < puntos_clave(respuesta).len() ==> recortado(#[trigger] puntos_clave(respuesta)[i]) == puntos_clave(respuesta)[i],
{
    lema_puntos_recortados(lineas(respuesta));
}

proof fn lema_puntos_recortados(ls: Seq<Seq<char>>)
    ensures
        puntos_de_lineas(ls).len() <= ls.len(),
        forall|i: int| 0 <= i < puntos_de_lineas(ls).len() ==> recortado(#[trigger] puntos_de_lineas(ls)[i]) == puntos_de_lineas(ls)[i],
    decreases ls.len(),
{
    if ls.len() > 0 {
        lema_puntos_recortados(ls.drop_last());
        if es_vineta(ls.last()) {
            let p = texto_de_vineta(ls.last());
            lema_recortado(sin_prefijo_repetido(sin_prefijo_repetido(recortado(ls.last()), '-'), vineta()));
            let anteriores = puntos_de_lineas(ls.drop_last());
            assert forall|i: int| 0 <= i < puntos_de_lineas(ls).len() implies recortado(#[trigger] puntos_de_lineas(ls)[i]) == puntos_de_lineas(ls)[i] by {
                if i < anteriores.len() {
                    assert(puntos_de_lineas(ls)[i] == anteriores[i]);
                }
            }
        }
    }
}

/// The name under which an oficio's PDF is kept holds no `'/'`, so it stays inside the
/// directory it is joined to, and it has one character per character of the number,
/// then `".pdf"`.
pub proof fn ley_nombre_sin_barras(numero_oficio: Seq<char>)
    ensures
        !barras_a_guiones(numero_oficio).contains('/'),
        barras_a_guiones(numero_oficio).len() == numero_oficio.len(),
{
}

/// Distinct statuses have distinct display names.
pub proof fn ley_nombres_de_estado_distintos(a: DocumentStatus, b: DocumentStatus)
    ensures
        a != b ==> nombre_estado(a) != nombre_estado(b),
{
    reveal_strlit("Draft");
    reveal_strlit("Scanned");
    reveal_strlit("Processing");
    reveal_strlit("Processed");
    reveal_strlit("Archived");
    reveal_strlit("Deleted");
    if a != b {
        let (x, y) = (nombre_estado(a), nombre_estado(b));
        if x.len() == y.len() {
            assert(x[0] != y[0]);
        }
    }
}

/// Handing a document to the user interface keeps everything it holds: the DTO made
/// from a document describes that same document.
pub proof fn ley_dto_conserva_documento(doc: Document)
    ensures
        vista_dto(<DocumentDto as vstd::std_specs::convert::FromSpec<Document>>::from_spec(doc)) == doc@,
{
}

/// A path text is accepted exactly when it is not empty and holds no NUL character, and
/// an accepted path is the text it was made from.
pub proof fn ley_ruta_valida(texto: Seq<char>)
    ensures
        validar_ruta(texto) is Ok <==> (texto.len() > 0 && !texto.contains('\0')),
        validar_ruta(texto) matches Ok(p) ==> p == texto,
{
}

/// The first phase runs its steps in order (scan, temporary image, OCR, image conversion,
/// Gemini analysis, PDF) and completes only after all of them succeeded; a failure at any
/// stage ends the phase at once.
pub proof fn ley_fase1_en_orden(etapa: EtapaFase1, causa: String, r: (EtapaFase1, AccionFase1))
    ensures
        siguiente_fase1(EtapaFase1::Inicio) == (EtapaFase1::Escaneando, AccionFase1::Escanear),
        siguiente_fase1(EtapaFase1::Escaneando) == (EtapaFase1::GuardandoImagen, AccionFase1::GuardarImagen),
        siguiente_fase1(EtapaFase1::GuardandoImagen) == (EtapaFase1::Reconociendo, AccionFase1::Reconocer),
        siguiente_fase1(EtapaFase1::Reconociendo) == (EtapaFase1::Convirtiendo, AccionFase1::Convertir),
        siguiente_fase1(EtapaFase1::Convirtiendo) == (EtapaFase1::Analizando, AccionFase1::Analizar),
        siguiente_fase1(EtapaFase1::Analizando) == (EtapaFase1::CreandoPdf, AccionFase1::CrearPdf),
        siguiente_fase1(EtapaFase1::CreandoPdf) == (EtapaFase1::Terminada, AccionFase1::Completar),
        transicion_fase1(etapa, EventoFase1::Fallo(causa), r) ==> r.0 is Terminada && r.1 is Fallar,
        !evento_admitido_fase1(EtapaFase1::Terminada, EventoFase1::Hecho),
{
}

/// The structured answer is asked to follow a schema whose required fields are all among
/// its fields, that requires the two fields the extracted metadata cannot do without
/// (keywords and summary), and whose classification values are exactly the names of the
/// library's classifications.
pub proof fn ley_esquema_estructurado(c: Clasificacion)
    ensures
        forall|i: int| #![trigger campos_requeridos()[i]] 0 <= i < campos_requeridos().len() ==> exists|j: int|
            #![trigger esquema_oficio()[j]] 0 <= j < esquema_oficio().len() && esquema_oficio()[j].0 == campos_requeridos()[i],
        campos_requeridos().contains("palabrasClave"@),
        campos_requeridos().contains("resumenEjecutivo"@),
        esquema_oficio()[3].0 == "clasificacionSugerida"@,
        esquema_oficio()[3].3.contains(nombre_clasificacion(c)),
        esquema_oficio()[3].3.len() == 5,
{
    let e = esquema_oficio();
    let r = campos_requeridos();
    assert(e[2].0 == r[0]);
    assert(e[6].0 == r[1]);
    assert(e[5].0 == r[2]);
    assert(r[2] == "palabrasClave"@);
    assert(r[1] == "resumenEjecutivo"@);
    let v = valores_clasificacion();
    match c {
        Clasificacion::Entrante => assert(v[0] == nombre_clasificacion(c)),
        Clasificacion::Saliente => assert(v[1] == nombre_clasificacion(c)),
        Clasificacion::Interno => assert(v[2] == nombre_clasificacion(c)),
        Clasificacion::Confidencial => assert(v[3] == nombre_clasificacion(c)),
        Clasificacion::Urgente => assert(v[4] == nombre_clasificacion(c)),
    }
}

/// Every field of the structured answer has the type of the metadata field it fills:
/// the keywords (`palabrasClave`, a list in the metadata) are a list of texts, and every
/// other field, the executive summary included, is a single text.
pub proof fn ley_tipos_del_esquema()
    ensures
        esquema_oficio().len() == 7,
        forall|i: int| 0 <= i < esquema_oficio().len() ==> (#[trigger] esquema_oficio()[i]).1 == (if esquema_oficio()[i].0 == "palabrasClave"@ {
            TipoCampo::ListaDeTextos
        } else {
            TipoCampo::Texto
        }),
        exists|i: int| 0 <= i < esquema_oficio().len() && (#[trigger] esquema_oficio()[i]).0 == "resumenEjecutivo"@
            && esquema_oficio()[i].1 == TipoCampo::Texto,
{
    reveal_strlit("numeroOficio");
    reveal_strlit("remitente");
    reveal_strlit("asunto");
    reveal_strlit("clasificacionSugerida");
    reveal_strlit("fechaOficio");
    reveal_strlit("palabrasClave");
    reveal_strlit("resumenEjecutivo");
    let e = esquema_oficio();
    assert(e[6].0 == "resumenEjecutivo"@);
    assert forall|i: int| 0 <= i < e.len() implies (#[trigger] e[i]).1 == (if e[i].0 == "palabrasClave"@ {
        TipoCampo::ListaDeTextos
    } else {
        TipoCampo::Texto
    }) by {
        if i != 5 {
            assert(e[i].0.len() != "palabrasClave"@.len());
        }
    }
}

proof fn lema_puntos_filtrados(ls: Seq<Seq<char>>)
    ensures
        puntos_de_lineas(ls) == ls.filter_map(|l: Seq<char>| if es_vineta(l) { Some(texto_de_vineta(l)) } else { None }),
        puntos_de_lineas(ls).len() == ls.filter(|l: Seq<char>| es_vineta(l)).len(),
        ls.len() > 0 && es_vineta(ls[0]) ==> puntos_de_lineas(ls).len() > 0
            && puntos_de_lineas(ls)[0] == texto_de_vineta(ls[0]),
    decreases ls.len(),
{
    reveal(Seq::filter);
    if ls.len() > 0 {
        lema_puntos_filtrados(ls.drop_last());
        let f = |l: Seq<char>| if es_vineta(l) { Some(texto_de_vineta(l)) } else { None };
        let p = |l: Seq<char>| es_vineta(l);
        assert(ls.filter(p) == (if p(ls.last()) { ls.drop_last().filter(p).push(ls.last()) } else { ls.drop_last().filter(p) }));
        if es_vineta(ls.last()) {
            assert(puntos_de_lineas(ls.drop_last()).push(texto_de_vineta(ls.last()))
                =~= ls.drop_last().filter_map(f) + seq![texto_de_vineta(ls.last())]);
        }
        if ls.len() > 1 {
            assert(ls.drop_last()[0] == ls[0]);
        }
    }
}

/// The key points of a reply are the texts of its bullet lines, in order, one for each
/// bullet line wherever it stands: a line gives a key point exactly when, trimmed, it
/// starts with `'-'` or `'•'`, and a bullet on the first line gives the first key point.
pub proof fn ley_puntos_de_cada_vineta(respuesta: Seq<char>)
    ensures
        puntos_clave(respuesta) == lineas(respuesta).filter_map(
            |l: Seq<char>| if es_vineta(l) { Some(texto_de_vineta(l)) } else { None },
        ),
        puntos_clave(respuesta).len() == lineas(respuesta).filter(|l: Seq<char>| es_vineta(l)).len(),
        lineas(respuesta).len() > 0 && es_vineta(lineas(respuesta)[0]) ==> puntos_clave(respuesta).len() > 0
            && puntos_clave(respuesta)[0] == texto_de_vineta(lineas(respuesta)[0]),
        forall|l: Seq<char>| es_vineta(l) <==> (recortado(l).len() > 0 && (recortado(l)[0] == '-' || recortado(l)[0] == '\u{2022}')),
{
    lema_puntos_filtrados(lineas(respuesta));
}

/// The MIME type of a scanned file follows its extension, exactly and case-sensitively:
/// each of `pdf`, `jpg`, `jpeg`, `png`, `gif`, `tiff`, `tif`, `bmp` and `txt` gets its
/// registered type (`jpg` the same as `jpeg`, `tif` the same as `tiff`) and never
/// `application/octet-stream`; any other extension, or none, gets `application/octet-stream`.
pub proof fn ley_tipos_mime(e: Seq<char>)
    ensures
        tipo_mime(Some("pdf"@)) == "application/pdf"@,
        tipo_mime(Some("jpg"@)) == "image/jpeg"@,
        tipo_mime(Some("jpeg"@)) == "image/jpeg"@,
        tipo_mime(Some("png"@)) == "image/png"@,
        tipo_mime(Some("gif"@)) == "image/gif"@,
        tipo_mime(Some("tiff"@)) == "image/tiff"@,
        tipo_mime(Some("tif"@)) == "image/tiff"@,
        tipo_mime(Some("bmp"@)) == "image/bmp"@,
        tipo_mime(Some("txt"@)) == "text/plain"@,
        (tipo_mime(Some(e)) == "application/octet-stream"@) <==> !seq![
            "pdf"@, "jpg"@, "jpeg"@, "png"@, "gif"@, "tiff"@, "tif"@, "bmp"@, "txt"@,
        ].contains(e),
        tipo_mime(None) == "application/octet-stream"@,
{
    reveal_strlit("pdf");
    reveal_strlit("jpg");
    reveal_strlit("jpeg");
    reveal_strlit("png");
    reveal_strlit("gif");
    reveal_strlit("tiff");
    reveal_strlit("tif");
    reveal_strlit("bmp");
    reveal_strlit("txt");
    reveal_strlit("application/pdf");
    reveal_strlit("image/jpeg");
    reveal_strlit("image/png");
    reveal_strlit("image/gif");
    reveal_strlit("image/tiff");
    reveal_strlit("image/bmp");
    reveal_strlit("text/plain");
    reveal_strlit("application/octet-stream");
    assert("pdf"@ != "jpg"@) by { assert("pdf"@[0] != "jpg"@[0]); }
    assert("pdf"@ != "jpeg"@) by { assert("pdf"@.len() != "jpeg"@.len()); }
    assert("pdf"@ != "png"@) by { assert("pdf"@[1] != "png"@[1]); }
    assert("pdf"@ != "gif"@) by { assert("pdf"@[0] != "gif"@[0]); }
    assert("pdf"@ != "tiff"@) by { assert("pdf"@.len() != "tiff"@.len()); }
    assert("pdf"@ != "tif"@) by { assert("pdf"@[0] != "tif"@[0]); }
    assert("pdf"@ != "bmp"@) by { assert("pdf"@[0] != "bmp"@[0]); }
    assert("pdf"@ != "txt"@) by { assert("pdf"@[0] != "txt"@[0]); }
    assert("jpg"@ != "jpeg"@) by { assert("jpg"@.len() != "jpeg"@.len()); }
    assert("jpg"@ != "png"@) by { assert("jpg"@[0] != "png"@[0]); }
    assert("jpg"@ != "gif"@) by { assert("jpg"@[0] != "gif"@[0]); }
    assert("jpg"@ != "tiff"@) by { assert("jpg"@.len() != "tiff"@.len()); }
    assert("jpg"@ != "tif"@) by { assert("jpg"@[0] != "tif"@[0]); }
    assert("jpg"@ != "bmp"@) by { assert("jpg"@[0] != "bmp"@[0]); }
    assert("jpg"@ != "txt"@) by { assert("jpg"@[0] != "txt"@[0]); }
    assert("jpeg"@ != "png"@) by { assert("jpeg"@.len() != "png"@.len()); }
    assert("jpeg"@ != "gif"@) by { assert("jpeg"@.len() != "gif"@.len()); }
    assert("jpeg"@ != "tiff"@) by { assert("jpeg"@[0] != "tiff"@[0]); }
    assert("jpeg"@ != "tif"@) by { assert("jpeg"@.len() != "tif"@.len()); }
    assert("jpeg"@ != "bmp"@) by { assert("jpeg"@.len() != "bmp"@.len()); }
    assert("jpeg"@ != "txt"@) by { assert("jpeg"@.len() != "txt"@.len()); }
    assert("png"@ != "gif"@) by { assert("png"@[0] != "gif"@[0]); }
    assert("png"@ != "tiff"@) by { assert("png"@.len() != "tiff"@.len()); }
    assert("png"@ != "tif"@) by { assert("png"@[0] != "tif"@[0]); }
    assert("png"@ != "bmp"@) by { assert("png"@[0] != "bmp"@[0]); }
    assert("png"@ != "txt"@) by { assert("png"@[0] != "txt"@[0]); }
    assert("gif"@ != "tiff"@) by { assert("gif"@.len() != "tiff"@.len()); }
    assert("gif"@ != "tif"@) by { assert("gif"@[0] != "tif"@[0]); }
    assert("gif"@ != "bmp"@) by { assert("gif"@[0] != "bmp"@[0]); }
    assert("gif"@ != "txt"@) by { assert("gif"@[0] != "txt"@[0]); }
    assert("tiff"@ != "tif"@) by { assert("tiff"@.len() != "tif"@.len()); }
    assert("tiff"@ != "bmp"@) by { assert("tiff"@.len() != "bmp"@.len()); }
    assert("tiff"@ != "txt"@) by { assert("tiff"@.len() != "txt"@.len()); }
    assert("tif"@ != "bmp"@) by { assert("tif"@[0] != "bmp"@[0]); }
    assert("tif"@ != "txt"@) by { assert("tif"@[1] != "txt"@[1]); }
    assert("bmp"@ != "txt"@) by { assert("bmp"@[0] != "txt"@[0]); }
    let conocidas = seq!["pdf"@, "jpg"@, "jpeg"@, "png"@, "gif"@, "tiff"@, "tif"@, "bmp"@, "txt"@];
    if conocidas.contains(e) {
        let i = choose|i: int| 0 <= i < conocidas.len() && conocidas[i] == e;
        if i == 0 {
            assert(e == "pdf"@);
            assert(tipo_mime(Some(e)) == "application/pdf"@);
            assert("application/pdf"@.len() != "application/octet-stream"@.len());
        }
        if i == 1 {
            assert(e == "jpg"@);
            assert(tipo_mime(Some(e)) == "image/jpeg"@);
            assert("image/jpeg"@.len() != "application/octet-stream"@.len());
        }
        if i == 2 {
            assert(e == "jpeg"@);
            assert(tipo_mime(Some(e)) == "image/jpeg"@);
            assert("image/jpeg"@.len() != "application/octet-stream"@.len());
        }
        if i == 3 {
            assert(e == "png"@);
            assert(tipo_mime(Some(e)) == "image/png"@);
            assert("image/png"@.len() != "application/octet-stream"@.len());
        }
        if i == 4 {
            assert(e == "gif"@);
            assert(tipo_mime(Some(e)) == "image/gif"@);
            assert("image/gif"@.len() != "application/octet-stream"@.len());
        }
        if i == 5 {
            assert(e == "tiff"@);
            assert(tipo_mime(Some(e)) == "image/tiff"@);
            assert("image/tiff"@.len() != "application/octet-stream"@.len());
        }
        if i == 6 {
            assert(e == "tif"@);
            assert(tipo_mime(Some(e)) == "image/tiff"@);
            assert("image/tiff"@.len() != "application/octet-stream"@.len());
        }
        if i == 7 {
            assert(e == "bmp"@);
            assert(tipo_mime(Some(e)) == "image/bmp"@);
            assert("image/bmp"@.len() != "application/octet-stream"@.len());
        }
        if i == 8 {
            assert(e == "txt"@);
            assert(tipo_mime(Some(e)) == "text/plain"@);
            assert("text/plain"@.len() != "application/octet-stream"@.len());
        }
    } else {
        assert(e != conocidas[0] && e != conocidas[1] && e != conocidas[2] && e != conocidas[3]
            && e != conocidas[4] && e != conocidas[5] && e != conocidas[6] && e != conocidas[7]
            && e != conocidas[8]);
    }
}

/// The name of an oficio's permanent PDF copies its number character by character, except
/// that every `'/'` becomes `'_'`: no other character changes.
pub proof fn ley_barras_a_guiones(numero: Seq<char>)
    ensures
        barras_a_guiones(numero).len() == numero.len(),
        forall|i: int| 0 <= i < numero.len() ==> #[trigger] barras_a_guiones(numero)[i] == (if numero[i] == '/' {
            '_'
        } else {
            numero[i]
        }),
{
}

/// A document is active exactly when it is neither archived nor deleted, and editable
/// exactly when it is a draft or freshly scanned.
pub proof fn ley_estados_activos(s: DocumentStatus)
    ensures
        spec_is_active(s) <==> !(s == DocumentStatus::Archived || s == DocumentStatus::Deleted),
        spec_is_editable(s) <==> (s == DocumentStatus::Draft || s == DocumentStatus::Scanned),
{
}

} // verus!
