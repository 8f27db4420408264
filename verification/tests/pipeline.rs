use oficialia_dsa::commands::{
    con_ruta_permanente, error_sin_base_de_datos, excede_limite_fase1, excede_limite_ocr,
    nombre_pdf_permanente, nombre_pdf_temporal, paso_fase1, respuesta_inicializacion, AccionFase1,
    EtapaFase1, EventoFase1, PasoComando,
};
use oficialia_dsa::config::{AiConfig, AppConfig, DatabaseConfig};
use oficialia_dsa::db::{patron_busqueda, preparar_registro, resultado_eliminacion, EstadisticasDb};
use oficialia_dsa::models::{Clasificacion, Configuracion, CrearOficioDto, MetadatosExtraidos};
use oficialia_dsa::pipeline::error::AppError;
use oficialia_dsa::pipeline::gemini_client::{
    error_de_envio, error_de_estado, id_de_archivo, paso_analisis, prompt_inferencia,
    texto_de_inferencia, uri_archivo, url_base_predeterminada, url_eliminacion, url_inferencia,
    url_modelos, url_subida, AccionAnalisis, EtapaAnalisis, EventoAnalisis, GeminiClient,
    parte_subida, solicitud_inferencia, PasoGemini, TipoCampo,
};
use oficialia_dsa::pipeline::ocr::{lineas_detectadas, OcrEngine};
use oficialia_dsa::pipeline::pdf_builder::PdfBuilder;
use oficialia_dsa::pipeline::scanner::{nombre_imagen_temporal, ColorMode, ScannerConfig, ScannerService};

#[test]
fn test_scanner_config_default() {
    let config = ScannerConfig::default();
    assert_eq!(config.dpi, 300);
    assert_eq!(config.formato_color, ColorMode::Color);
    assert_eq!(config.timeout_ms, 10000);
}

#[test]
fn test_ocr_engine_creation() {
    let engine = OcrEngine::new("es-ES", false);
    assert!(engine.idiomas_soportados().contains(&"es-ES".to_string()));
}

#[test]
fn test_gemini_client_creation() {
    let client = GeminiClient::new("test_api_key".to_string());
    assert_eq!(client.api_key(), "test_api_key");
}

#[test]
fn cliente_gemini_direcciones() {
    let client = GeminiClient::new("K".to_string());
    assert_eq!(client.base_url(), "https://generativelanguage.googleapis.com/v1beta");
    assert_eq!(
        client.direccion_subida(),
        "https://generativelanguage.googleapis.com/v1beta/files?key=K"
    );
    assert_eq!(
        client.direccion_inferencia(),
        "https://generativelanguage.googleapis.com/v1beta/models/gemini-1.5-pro:generateContent?key=K"
    );
    assert_eq!(
        client.direccion_eliminacion("abc"),
        "https://generativelanguage.googleapis.com/v1beta/files/abc?key=K"
    );
    assert_eq!(
        client.direccion_modelos(),
        "https://generativelanguage.googleapis.com/v1beta/models?key=K"
    );
}

#[test]
fn direcciones_sueltas() {
    assert_eq!(url_base_predeterminada(), "https://generativelanguage.googleapis.com/v1beta");
    assert_eq!(url_subida("http://b", "k"), "http://b/files?key=k");
    assert_eq!(
        url_inferencia("http://b", "k"),
        "http://b/models/gemini-1.5-pro:generateContent?key=k"
    );
    assert_eq!(url_eliminacion("http://b", "f1", "k"), "http://b/files/f1?key=k");
    assert_eq!(url_modelos("http://b", "k"), "http://b/models?key=k");
    assert_eq!(
        uri_archivo("f1"),
        "https://generativelanguage.googleapis.com/v1beta/files/f1"
    );
}

#[test]
fn identificador_de_archivo() {
    assert_eq!(id_de_archivo("files/abc123"), "abc123");
    assert_eq!(id_de_archivo("abc123"), "abc123");
    assert_eq!(id_de_archivo("files/"), "");
    assert_eq!(id_de_archivo("file/x"), "file/x");
}

#[test]
fn prompt_de_inferencia() {
    let p = prompt_inferencia("TEXTO");
    assert!(p.starts_with("Analiza este documento oficial y extrae los metadatos estructurados."));
    assert!(p.contains("TEXTO OCR EXTRAÍDO:\nTEXTO\n\nInstrucciones:"));
    assert!(p.ends_with("4. Crea un resumen ejecutivo claro y conciso"));
}

#[test]
fn texto_de_inferencia_casos() {
    let r = texto_de_inferencia(vec![vec!["{\"a\":1}".to_string(), "otro".to_string()]]);
    assert_eq!(r.unwrap(), "{\"a\":1}");
    let vacio = texto_de_inferencia(vec![]);
    assert!(matches!(vacio, Err(AppError::GeminiApi(ref m)) if m == "Respuesta vacía de Gemini"));
    let sin_partes = texto_de_inferencia(vec![vec![]]);
    assert!(matches!(sin_partes, Err(AppError::GeminiApi(_))));
}

#[test]
fn errores_de_gemini() {
    let e = error_de_estado(PasoGemini::Subida, "500 Internal Server Error", "fallo");
    assert_eq!(
        e.to_string(),
        "Error de comunicación con Gemini API: Upload falló con 500 Internal Server Error: fallo"
    );
    let e = error_de_envio(PasoGemini::Subida, "timeout");
    assert_eq!(
        e.to_string(),
        "Error de comunicación con Gemini API: Falló upload: timeout"
    );
    assert_eq!(
        error_de_estado(PasoGemini::Inferencia, "400 Bad Request", "x").to_string(),
        "Error de comunicación con Gemini API: Inferencia falló con 400 Bad Request: x"
    );
    assert_eq!(
        error_de_envio(PasoGemini::Eliminacion, "red").to_string(),
        "Error de comunicación con Gemini API: Falló DELETE: red"
    );
    assert_eq!(
        error_de_envio(PasoGemini::CreacionMultipart, "mime").to_string(),
        "Error de comunicación con Gemini API: Falló creación de multipart: mime"
    );
}

fn metadatos(asunto: &str) -> MetadatosExtraidos {
    MetadatosExtraidos {
        numero_oficio: Some("DSA/1".to_string()),
        remitente: None,
        asunto: Some(asunto.to_string()),
        clasificacion_sugerida: Some(Clasificacion::Urgente),
        fecha_oficio: None,
        palabras_clave: vec!["k".to_string()],
        resumen_ejecutivo: "r".to_string(),
    }
}

#[test]
fn analisis_borra_el_archivo_subido() {
    let (etapa, accion) = paso_analisis(EtapaAnalisis::Inicio, EventoAnalisis::Comenzar);
    assert!(matches!(accion, AccionAnalisis::SubirArchivo));
    let (etapa, accion) = paso_analisis(etapa, EventoAnalisis::Subida(Ok("f-77".to_string())));
    assert!(matches!(accion, AccionAnalisis::EjecutarInferencia { ref file_id } if file_id == "f-77"));
    let (etapa, accion) = paso_analisis(etapa, EventoAnalisis::Inferencia(Ok(metadatos("Asunto"))));
    assert!(matches!(accion, AccionAnalisis::EliminarArchivo { ref file_id } if file_id == "f-77"));
    let (etapa, accion) = paso_analisis(
        etapa,
        EventoAnalisis::Eliminacion(Err(AppError::GeminiApi("Falló DELETE: x".to_string()))),
    );
    assert!(matches!(etapa, EtapaAnalisis::Terminado));
    match accion {
        AccionAnalisis::Responder(Ok(m)) => assert_eq!(m.asunto, Some("Asunto".to_string())),
        _ => panic!("se esperaba el resultado de la inferencia"),
    }
}

#[test]
fn analisis_borra_aunque_falle_la_inferencia() {
    let (etapa, _) = paso_analisis(EtapaAnalisis::Inicio, EventoAnalisis::Comenzar);
    let (etapa, _) = paso_analisis(etapa, EventoAnalisis::Subida(Ok("id9".to_string())));
    let (etapa, accion) = paso_analisis(
        etapa,
        EventoAnalisis::Inferencia(Err(AppError::GeminiApi("Inferencia falló".to_string()))),
    );
    assert!(matches!(accion, AccionAnalisis::EliminarArchivo { ref file_id } if file_id == "id9"));
    let (_, accion) = paso_analisis(etapa, EventoAnalisis::Eliminacion(Ok(())));
    assert!(matches!(accion, AccionAnalisis::Responder(Err(AppError::GeminiApi(ref m))) if m == "Inferencia falló"));
}

#[test]
fn analisis_con_subida_fallida_no_borra() {
    let (etapa, _) = paso_analisis(EtapaAnalisis::Inicio, EventoAnalisis::Comenzar);
    let (etapa, accion) = paso_analisis(
        etapa,
        EventoAnalisis::Subida(Err(AppError::GeminiApi("Falló upload".to_string()))),
    );
    assert!(matches!(etapa, EtapaAnalisis::Terminado));
    assert!(matches!(accion, AccionAnalisis::Responder(Err(AppError::GeminiApi(ref m))) if m == "Falló upload"));
}

#[test]
fn escaner_disponibilidad() {
    let s = ScannerService::new(ScannerConfig::default());
    assert_eq!(s.config(), ScannerConfig::default());
    let conectados = vec!["Epson DS-530".to_string(), "Fujitsu fi-7160".to_string()];
    let en_windows = s.verificar_disponibilidad(true, conectados.clone()).unwrap();
    assert_eq!(en_windows, conectados);
    assert!(s.verificar_disponibilidad(true, vec![]).unwrap().is_empty());
    let fuera = s.verificar_disponibilidad(false, conectados).unwrap();
    assert_eq!(fuera, vec!["Simulado (Modo Desarrollo)".to_string()]);
    let e = ScannerService::error_de_adquisicion(false);
    assert!(matches!(e, AppError::Hardware(_)));
}

#[test]
fn motor_ocr_disponibilidad() {
    let e = OcrEngine::new("es-MX", true);
    assert!(e.esta_disponible());
    assert_eq!(e.idiomas_soportados().len(), 1);
    assert_eq!(e.idiomas_soportados()[0], "es-MX");
    assert!(!OcrEngine::new("es-ES", false).esta_disponible());
}

#[test]
fn mensajes_de_error_de_la_aplicacion() {
    assert_eq!(AppError::Hardware("x".to_string()).to_string(), "Error de hardware: x");
    assert_eq!(AppError::Ocr("y".to_string()).to_string(), "Error de OCR: y");
    assert_eq!(AppError::Database("z".to_string()).to_string(), "Error de base de datos: z");
    let e: AppError = AppError::from("libre".to_string());
    assert!(matches!(e, AppError::Interno(ref m) if m == "libre"));
}

#[test]
fn nombres_de_pdf() {
    assert_eq!(nombre_pdf_permanente("DSA/2024/001"), "DSA_2024_001.pdf");
    assert_eq!(nombre_pdf_permanente("SIN-BARRAS"), "SIN-BARRAS.pdf");
    let t = nombre_pdf_temporal();
    assert_eq!(t.chars().count(), 40);
    assert!(t.ends_with(".pdf"));
    assert_ne!(t, nombre_pdf_temporal());
}

fn dto() -> CrearOficioDto {
    CrearOficioDto {
        numero_oficio: "TEST-001".to_string(),
        remitente: "Departamento Test".to_string(),
        asunto: "Oficio de prueba".to_string(),
        clasificacion: Clasificacion::Entrante,
        fecha_oficio: "2024-01-15".to_string(),
        ruta_pdf_temporal: "/tmp/test.pdf".to_string(),
        palabras_clave: vec!["prueba".to_string(), "test".to_string()],
    }
}

#[test]
fn ruta_permanente_y_limites() {
    let d = con_ruta_permanente(dto(), "/datos/oficios/TEST-001.pdf".to_string());
    assert_eq!(d.ruta_pdf_temporal, "/datos/oficios/TEST-001.pdf");
    assert_eq!(d.numero_oficio, "TEST-001");
    assert!(!excede_limite_fase1(5000));
    assert!(excede_limite_fase1(5001));
    assert!(!excede_limite_ocr(1500));
    assert!(excede_limite_ocr(1501));
}

#[test]
fn mensajes_de_los_comandos() {
    assert_eq!(PasoComando::Escaneo.mensaje_error("sin papel"), "Error en escaneo: sin papel");
    assert_eq!(PasoComando::Busqueda.mensaje_error("x"), "Error en búsqueda: x");
    assert_eq!(PasoComando::Eliminacion.mensaje_error("y"), "Error eliminando oficio: y");
    assert_eq!(error_sin_base_de_datos(), "Base de datos no inicializada");
    let r = respuesta_inicializacion(true, false, vec!["Epson DS-530".to_string()]);
    assert!(r.exitoso);
    assert!(r.gemini_disponible);
    assert!(!r.ocr_disponible);
    assert_eq!(r.escaneres_detectados, vec!["Epson DS-530".to_string()]);
    assert_eq!(r.mensaje, "Aplicación inicializada correctamente");
}

#[test]
fn registro_de_oficio() {
    let r = preparar_registro(&dto());
    assert_eq!(r.id.len(), 36);
    assert_eq!(r.numero_oficio, "TEST-001");
    assert_eq!(r.remitente, "Departamento Test");
    assert_eq!(r.asunto, "Oficio de prueba");
    assert_eq!(r.clasificacion, "ENTRANTE");
    assert_eq!(r.fecha_oficio, "2024-01-15");
    assert_eq!(r.ruta_pdf_local, "/tmp/test.pdf");
    assert_eq!(r.palabras_clave, vec!["prueba".to_string(), "test".to_string()]);
    assert!(!r.fecha_registro.is_empty());
}

#[test]
fn consultas_de_la_base() {
    assert_eq!(patron_busqueda("prueba"), "%prueba%");
    assert!(resultado_eliminacion(1).is_ok());
    let e = resultado_eliminacion(0);
    assert!(matches!(e, Err(AppError::Validacion(ref m)) if m == "Oficio no encontrado"));
    let s = EstadisticasDb::desde_conteos(3, 7);
    assert_eq!(s, EstadisticasDb { total_oficios: 3, total_palabras_clave: 7 });
}

#[test]
fn clasificaciones_y_configuracion() {
    assert_eq!(Clasificacion::Entrante.to_string(), "ENTRANTE");
    assert_eq!(Clasificacion::Confidencial.to_string(), "CONFIDENCIAL");
    assert_eq!(Clasificacion::Urgente.to_string(), "URGENTE");
    let c = Configuracion::desde_entorno(None, None);
    assert_eq!(c.gemini_api_key, "");
    assert_eq!(c.directorio_base, "./data");
    assert_eq!(c.dpi_escaneo, 300);
    assert_eq!(c.timeout_http_ms, 30000);
    assert_eq!(c.ruta_db_sqlite, "./data/oficios.db");
    let c = Configuracion::desde_entorno(Some("clave".to_string()), Some("/d".to_string()));
    assert_eq!(c.gemini_api_key, "clave");
    assert_eq!(c.directorio_base, "/d");
}

#[test]
fn configuracion_de_la_aplicacion() {
    let d = DatabaseConfig::default();
    assert_eq!(d.provider, "memory");
    assert!(d.connection_string.is_none());
    let ai = AiConfig::desde_entorno(Some("k".to_string()));
    assert!(!ai.enabled);
    let c = AppConfig::from_env("0.1.0".to_string(), None);
    assert_eq!(c.app_name, "Oficialia DSA");
    assert_eq!(c.version, "0.1.0");
    assert!(!c.ai.enabled);
    let c = AppConfig::from_env("0.1.0".to_string(), Some("k".to_string()));
    assert!(c.ai.enabled);
    assert_eq!(c.ai.gemini_api_key, Some("k".to_string()));
    let p = AppConfig::predeterminada("1".to_string(), Some("k".to_string()));
    assert!(!p.ai.enabled);
}

#[test]
fn test_pdf_builder_creation() {
    let builder = PdfBuilder::new(300);
    assert_eq!(builder.dpi(), 300);
}

#[test]
fn test_generar_ruta_pdf() {
    let builder = PdfBuilder::new(300);
    let ruta = builder.generar_ruta_pdf(&std::path::PathBuf::from("/tmp"), "OF-2024-001");
    assert!(ruta.extension().unwrap() == "pdf");
    assert!(ruta.to_string_lossy().contains("OF-2024-001"));
}

#[test]
fn nombre_unico_de_pdf() {
    let n = PdfBuilder::nombre_unico("DSA/7");
    assert_eq!(n.len(), 5 + 41);
    assert!(n.starts_with("DSA_7_"));
    assert!(n.ends_with(".pdf"));
    assert_ne!(n, PdfBuilder::nombre_unico("DSA/7"));
}

#[test]
fn lineas_del_ocr() {
    assert_eq!(lineas_detectadas("a\nb\r\nc"), 3);
    assert_eq!(lineas_detectadas("a\n"), 1);
    assert_eq!(lineas_detectadas("\n\n"), 2);
    assert_eq!(lineas_detectadas(""), 0);
}

#[test]
fn fase1_en_orden_y_primer_fallo() {
    let (e, a) = paso_fase1(EtapaFase1::Inicio, EventoFase1::Comenzar);
    assert!(matches!(a, AccionFase1::Escanear));
    let (e, a) = paso_fase1(e, EventoFase1::Hecho);
    assert!(matches!(a, AccionFase1::GuardarImagen));
    let (e, a) = paso_fase1(e, EventoFase1::Hecho);
    assert!(matches!(a, AccionFase1::Reconocer));
    let (e2, a) = paso_fase1(e, EventoFase1::Hecho);
    assert!(matches!(a, AccionFase1::Convertir));
    let (e3, a) = paso_fase1(e2, EventoFase1::Hecho);
    assert!(matches!(a, AccionFase1::Analizar));
    let (e4, a) = paso_fase1(e3, EventoFase1::Hecho);
    assert!(matches!(a, AccionFase1::CrearPdf));
    let (fin, a) = paso_fase1(e4, EventoFase1::Hecho);
    assert!(matches!(a, AccionFase1::Completar));
    assert!(matches!(fin, EtapaFase1::Terminada));
    let (fin, a) = paso_fase1(EtapaFase1::Analizando, EventoFase1::Fallo("sin red".to_string()));
    assert!(matches!(fin, EtapaFase1::Terminada));
    assert!(matches!(a, AccionFase1::Fallar(ref m) if m == "Error en Gemini API: sin red"));
    let (_, a) = paso_fase1(EtapaFase1::Escaneando, EventoFase1::Fallo("x".to_string()));
    assert!(matches!(a, AccionFase1::Fallar(ref m) if m == "Error en escaneo: x"));
    let (_, a) = paso_fase1(EtapaFase1::GuardandoImagen, EventoFase1::Fallo("disco".to_string()));
    assert!(matches!(a, AccionFase1::Fallar(ref m) if m == "disco"));
}

#[test]
fn fecha_de_registro_en_utc() {
    let r = preparar_registro(&dto());
    assert!(r.fecha_registro.ends_with("+00:00"));
    let cs: Vec<char> = r.fecha_registro.chars().collect();
    assert_eq!((cs[4], cs[7], cs[10], cs[13], cs[16]), ('-', '-', 'T', ':', ':'));
    assert!([25, 29, 32, 35].contains(&cs.len()));
}

#[test]
fn solicitud_estructurada() {
    let s = solicitud_inferencia("abc", "TEXTO");
    assert_eq!(s.prompt, prompt_inferencia("TEXTO"));
    assert_eq!(s.mime_imagen, "image/png");
    assert_eq!(s.uri_archivo, "https://generativelanguage.googleapis.com/v1beta/files/abc");
    assert_eq!(s.mime_respuesta, "application/json");
    let nombres: Vec<&str> = s.campos.iter().map(|c| c.nombre.as_str()).collect();
    assert_eq!(
        nombres,
        vec!["numeroOficio", "remitente", "asunto", "clasificacionSugerida", "fechaOficio", "palabrasClave", "resumenEjecutivo"]
    );
    assert_eq!(s.campos[5].tipo, TipoCampo::ListaDeTextos);
    assert_eq!(s.campos[0].tipo, TipoCampo::Texto);
    assert_eq!(s.campos[3].valores, vec!["ENTRANTE", "SALIENTE", "INTERNO", "CONFIDENCIAL", "URGENTE"]);
    assert!(s.campos[2].valores.is_empty());
    assert_eq!(s.campos[6].descripcion, "Resumen ejecutivo del contenido (max 200 palabras)");
    assert_eq!(s.requeridos, vec!["asunto", "resumenEjecutivo", "palabrasClave"]);
    let p = parte_subida();
    assert_eq!((p.campo.as_str(), p.nombre_archivo.as_str(), p.mime.as_str()), ("file", "documento.png", "image/png"));
}

#[test]
fn nombre_de_imagen_temporal() {
    let n = nombre_imagen_temporal();
    assert_eq!(n.len(), 45);
    assert!(n.starts_with("scan_"));
    assert!(n.ends_with(".png"));
    assert_eq!(n.chars().nth(19), Some('4'));
    assert_ne!(n, nombre_imagen_temporal());
}
