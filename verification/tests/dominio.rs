use oficialia_dsa::application::commands::{
    CreateDocumentCommand, DeleteDocumentCommand, ProcessOcrCommand, ScanDocumentCommand,
    UpdateDocumentCommand,
};
use oficialia_dsa::application::dto::DocumentDto;
use oficialia_dsa::application::queries::{GetDocumentQuery, ListDocumentsQuery, SearchDocumentsQuery};
use oficialia_dsa::domain::entities::{Document, DocumentId, OcrResult, ScanMetadata, ScanResult};
use oficialia_dsa::domain::repositories::DocumentRepository;
use oficialia_dsa::domain::services::{AiService, DocumentService, OcrService, ScannerService};
use oficialia_dsa::domain::services::scanner_service::mime_para_extension;
use oficialia_dsa::domain::value_objects::{DocumentStatus, FilePath, FilePathError};
use oficialia_dsa::error::DomainError;
use oficialia_dsa::infrastructure::api_clients::{
    extraer_puntos_clave, mensaje_error_api, prompt_puntos_clave, prompt_resumen, texto_de_respuesta,
    url_generar_contenido,
};
use oficialia_dsa::infrastructure::database::InMemoryDocumentRepository;
use oficialia_dsa::infrastructure::error::InfrastructureError;
use oficialia_dsa::infrastructure::file_system::FileSystem;
use oficialia_dsa::infrastructure::tauri_handlers::{greet, AppState};
use oficialia_dsa::reloj::Instante;

fn documento(id: &str, titulo: &str, segundos: i64, etiquetas: &[&str]) -> Document {
    let t = Instante { segundos, nanos: 0 };
    Document {
        id: DocumentId::from_str(id),
        title: titulo.to_string(),
        content: String::new(),
        file_path: None,
        created_at: t,
        updated_at: t,
        tags: etiquetas.iter().map(|e| e.to_string()).collect(),
    }
}

fn ids(v: &[Document]) -> Vec<String> {
    v.iter().map(|d| d.id.0.clone()).collect()
}

#[test]
fn repositorio_guardar_buscar_eliminar() {
    let mut repo = InMemoryDocumentRepository::new();
    let d = documento("a", "Informe", 10, &[]);
    repo.save(&d).unwrap();
    let encontrado = repo.find_by_id(&DocumentId::from_str("a")).unwrap().unwrap();
    assert_eq!(encontrado.title, "Informe");
    assert!(repo.find_by_id(&DocumentId::from_str("b")).unwrap().is_none());
    let mut cambiado = d.clone();
    cambiado.title = "Otro".to_string();
    repo.save(&cambiado).unwrap();
    assert_eq!(repo.find_all(10, 0).unwrap().len(), 1);
    assert_eq!(repo.find_by_id(&DocumentId::from_str("a")).unwrap().unwrap().title, "Otro");
    repo.delete(&DocumentId::from_str("a")).unwrap();
    assert!(repo.find_by_id(&DocumentId::from_str("a")).unwrap().is_none());
    repo.delete(&DocumentId::from_str("a")).unwrap();
    assert!(repo.find_all(10, 0).unwrap().is_empty());
}

#[test]
fn repositorio_lista_recientes_primero_por_paginas() {
    let mut repo = InMemoryDocumentRepository::default();
    repo.save(&documento("viejo", "v", 1, &[])).unwrap();
    repo.save(&documento("nuevo", "n", 30, &[])).unwrap();
    repo.save(&documento("medio", "m", 20, &[])).unwrap();
    assert_eq!(ids(&repo.find_all(10, 0).unwrap()), vec!["nuevo", "medio", "viejo"]);
    assert_eq!(ids(&repo.find_all(2, 0).unwrap()), vec!["nuevo", "medio"]);
    assert_eq!(ids(&repo.find_all(2, 2).unwrap()), vec!["viejo"]);
    assert!(repo.find_all(2, 3).unwrap().is_empty());
    assert!(repo.find_all(0, 0).unwrap().is_empty());
}

#[test]
fn repositorio_busca_por_titulo_y_etiqueta_sin_mayusculas() {
    let mut repo = InMemoryDocumentRepository::new();
    repo.save(&documento("1", "INFORME Anual", 1, &["Urgente"])).unwrap();
    repo.save(&documento("2", "Memorándum", 2, &["interno", "URGENTE"])).unwrap();
    repo.save(&documento("3", "Informe mensual", 3, &["interno"])).unwrap();
    let mut por_titulo = ids(&repo.find_by_title("informe").unwrap());
    por_titulo.sort();
    assert_eq!(por_titulo, vec!["1", "3"]);
    assert!(repo.find_by_title("circular").unwrap().is_empty());
    let mut por_etiqueta = ids(&repo.find_by_tag("urgente").unwrap());
    por_etiqueta.sort();
    assert_eq!(por_etiqueta, vec!["1", "2"]);
    assert!(repo.find_by_tag("urg").unwrap().is_empty());
}

#[test]
fn servicio_de_documentos() {
    let mut svc = DocumentService::new(InMemoryDocumentRepository::new());
    let d = svc.create_document("Título".to_string(), "Contenido".to_string()).unwrap();
    assert_eq!(d.id.0.len(), 36);
    assert!(d.tags.is_empty());
    assert_eq!(d.created_at, d.updated_at);
    let leido = svc.get_document(&d.id).unwrap().unwrap();
    assert_eq!(leido.content, "Contenido");
    let actualizado = svc.update_content(&d.id, "Nuevo".to_string()).unwrap();
    assert_eq!(actualizado.content, "Nuevo");
    assert_eq!(actualizado.title, "Título");
    assert_eq!(svc.get_document(&d.id).unwrap().unwrap().content, "Nuevo");
    let ruta = FilePath::new("/docs/a.pdf").unwrap();
    let con_ruta = svc.set_file_path(&d.id, ruta).unwrap();
    assert_eq!(con_ruta.file_path, Some("/docs/a.pdf".to_string()));
    assert_eq!(svc.list_documents(10, 0).unwrap().len(), 1);
    svc.delete_document(&d.id).unwrap();
    assert!(svc.get_document(&d.id).unwrap().is_none());
    let falta = svc.update_content(&d.id, "x".to_string());
    assert_eq!(falta.err(), Some(DomainError::DocumentNotFound));
    let falta = svc.set_file_path(&d.id, FilePath::new("/x").unwrap());
    assert_eq!(falta.err(), Some(DomainError::DocumentNotFound));
}

#[test]
fn etiquetas_sin_repetir() {
    let mut d = Document::new("t".to_string(), "c".to_string());
    d.add_tag("a".to_string());
    d.add_tag("b".to_string());
    let antes = d.updated_at;
    d.add_tag("a".to_string());
    assert_eq!(d.tags, vec!["a".to_string(), "b".to_string()]);
    assert_eq!(d.updated_at, antes);
    let con_ruta = d.clone().with_path("/p".to_string());
    assert_eq!(con_ruta.file_path, Some("/p".to_string()));
    assert_eq!(con_ruta.id.0, d.id.0);
}

#[test]
fn estados_de_documento() {
    assert_eq!(
        DocumentStatus::all(),
        vec![
            DocumentStatus::Draft,
            DocumentStatus::Scanned,
            DocumentStatus::Processing,
            DocumentStatus::Processed,
            DocumentStatus::Archived,
            DocumentStatus::Deleted,
        ]
    );
    assert!(DocumentStatus::Draft.is_editable());
    assert!(DocumentStatus::Scanned.is_editable());
    assert!(!DocumentStatus::Processing.is_editable());
    assert!(DocumentStatus::Processed.is_active());
    assert!(!DocumentStatus::Archived.is_active());
    assert!(!DocumentStatus::Deleted.is_active());
    assert_eq!(DocumentStatus::Processing.to_string(), "Processing");
    assert_eq!(DocumentStatus::default(), DocumentStatus::Draft);
}

#[test]
fn rutas_validadas() {
    assert_eq!(FilePath::new("").err(), Some(FilePathError::EmptyPath));
    assert_eq!(FilePath::new("a\0b").err(), Some(FilePathError::InvalidCharacters));
    let p = FilePath::new("/docs/informe.final.PDF").unwrap();
    assert_eq!(p.as_str(), Some("/docs/informe.final.PDF"));
    assert_eq!(p.extension(), Some("PDF"));
    assert_eq!(FilePath::new("/docs/sin_extension").unwrap().extension(), None);
    assert_eq!(FilePathError::EmptyPath.to_string(), "File path cannot be empty");
    assert_eq!(FilePathError::InvalidCharacters.to_string(), "File path contains invalid characters");
    let desde_buf = FilePath::from_path_buf(std::path::PathBuf::from("/tmp/x.txt")).unwrap();
    assert_eq!(desde_buf.as_str(), Some("/tmp/x.txt"));
    assert_eq!(desde_buf.as_path(), std::path::PathBuf::from("/tmp/x.txt"));
    let fs = FileSystem::new();
    assert_eq!(fs.get_extension(&desde_buf), Some("txt".to_string()));
    assert!(!fs.exists_on_disk(&FilePath::new("/no/existe/en/ningun/lado.xyz").unwrap()));
}

#[test]
fn tipos_mime() {
    assert_eq!(mime_para_extension(Some("pdf")), "application/pdf");
    assert_eq!(mime_para_extension(Some("jpeg")), "image/jpeg");
    assert_eq!(mime_para_extension(Some("tif")), "image/tiff");
    assert_eq!(mime_para_extension(Some("txt")), "text/plain");
    assert_eq!(mime_para_extension(Some("PDF")), "application/octet-stream");
    assert_eq!(mime_para_extension(None), "application/octet-stream");
}

#[test]
fn escaneo_de_archivos() {
    let s = ScannerService::new();
    let falta = s.scan_file(&FilePath::new("/no/existe/nada.pdf").unwrap(), Some(3));
    assert_eq!(falta.err(), Some(DomainError::FileNotFound("/no/existe/nada.pdf".to_string())));
    let ruta = FilePath::new("/etc/passwd").unwrap();
    let r = s.scan_file(&ruta, Some(3)).unwrap();
    assert!(r.success);
    assert!(r.error_message.is_none());
    assert_eq!(r.metadata.file_name, "passwd");
    assert_eq!(r.metadata.file_size, 3);
    assert_eq!(r.metadata.mime_type, "application/octet-stream");
    assert_eq!(r.document_id.0.len(), 36);
    assert_eq!(s.scan_file(&ruta, None).err(), Some(DomainError::FileReadError));
}

#[test]
fn resultados_de_escaneo_y_ocr() {
    let meta = ScanMetadata {
        file_name: "a.png".to_string(),
        file_size: 5,
        mime_type: "image/png".to_string(),
        scan_date: Instante { segundos: 0, nanos: 0 },
    };
    let ok = ScanResult::new(DocumentId::from_str("d"), meta);
    assert!(ok.success && ok.error_message.is_none() && ok.id.len() == 36);
    let mal = ScanResult::error(DocumentId::from_str("d"), "falla".to_string());
    assert!(!mal.success);
    assert_eq!(mal.error_message, Some("falla".to_string()));
    assert_eq!(mal.metadata.file_size, 0);
    let o = OcrResult::new(DocumentId::from_str("d"), "texto".to_string(), "spa".to_string())
        .with_processing_time(12);
    assert_eq!(o.processing_time_ms, 12);
    assert!(o.success);
    let e = OcrResult::error(DocumentId::from_str("d"), "x".to_string());
    assert!(!e.success && e.extracted_text.is_empty());
}

#[test]
fn servicio_ocr() {
    let svc = OcrService::new();
    let r = svc.extract_text(DocumentId::from_str("d"), &[1, 2], "spa").unwrap();
    assert_eq!(r.extracted_text, "[OCR Text Extraction Placeholder]");
    assert_eq!(r.language, "spa");
    assert!(r.blocks.is_empty());
    let b = svc.extract_text_with_blocks(DocumentId::from_str("d"), &[], "eng").unwrap();
    assert_eq!(b.blocks.len(), 1);
    assert_eq!(b.blocks[0].confidence, 9500);
    assert_eq!(b.blocks[0].text, b.extracted_text);
}

#[test]
fn servicio_ia() {
    let sin_clave = AiService::new(None);
    assert_eq!(sin_clave.summarize("x").err(), Some(DomainError::AiServiceNotConfigured));
    assert_eq!(
        sin_clave.analyze_document(DocumentId::from_str("d"), "x").err(),
        Some(DomainError::AiServiceNotConfigured)
    );
    let con_clave = AiService::new(Some("k".to_string()));
    assert_eq!(con_clave.summarize("x").unwrap(), "[Summary Placeholder]");
    assert_eq!(con_clave.extract_categories("x").unwrap(), vec!["general".to_string()]);
    let a = con_clave.analyze_document(DocumentId::from_str("d"), "x").unwrap();
    assert_eq!(a.summary, "[AI Summary Placeholder]");
    assert_eq!(a.sentiment, Some("neutral".to_string()));
}

#[test]
fn cliente_de_texto_gemini() {
    assert_eq!(
        url_generar_contenido("K"),
        "https://generativelanguage.googleapis.com/v1beta/models/gemini-pro:generateContent?key=K"
    );
    assert_eq!(prompt_resumen("abc"), "Please provide a concise summary of the following text:\n\nabc");
    assert_eq!(
        prompt_puntos_clave("abc"),
        "Extract the key points from the following text as a bulleted list:\n\nabc"
    );
    assert_eq!(texto_de_respuesta(None), "");
    assert_eq!(texto_de_respuesta(Some(vec![])), "");
    assert_eq!(texto_de_respuesta(Some(vec![vec!["hola".to_string()]])), "hola");
}

#[test]
fn puntos_clave_de_una_respuesta() {
    let r = extraer_puntos_clave("Puntos:\n- uno\n  • dos  \r\ntexto suelto\n--- tres\n-\n");
    assert_eq!(r, vec!["uno".to_string(), "dos".to_string(), "tres".to_string(), "".to_string()]);
    assert!(extraer_puntos_clave("").is_empty());
}

#[test]
fn errores_de_dominio() {
    assert_eq!(DomainError::DocumentNotFound.to_string(), "Document not found");
    assert_eq!(DomainError::FileNotFound("/a".to_string()).to_string(), "File not found: /a");
    assert_eq!(DomainError::ValidationError("v".to_string()).to_string(), "Validation error: v");
    assert_eq!(
        DomainError::from(InfrastructureError::Database("caída".to_string())),
        DomainError::RepositoryError("caída".to_string())
    );
    assert_eq!(
        DomainError::from(InfrastructureError::FileSystem("x".to_string())),
        DomainError::FileReadError
    );
    assert_eq!(
        DomainError::from(InfrastructureError::ApiClient("y".to_string())),
        DomainError::RepositoryError("API client error: y".to_string())
    );
    let json = serde_json::from_str::<u32>("no es json").unwrap_err();
    let e = InfrastructureError::from(json);
    match e {
        InfrastructureError::Serialization(m) => assert!(!m.is_empty()),
        _ => panic!("se esperaba un error de serialización"),
    }
    assert_eq!(
        InfrastructureError::Configuration("c".to_string()).to_string(),
        "Configuration error: c"
    );
}

#[test]
fn comandos_y_consultas() {
    let c = CreateDocumentCommand::new("t".to_string(), "c".to_string());
    assert_eq!((c.title.as_str(), c.content.as_str()), ("t", "c"));
    let u = UpdateDocumentCommand::new("id".to_string())
        .with_title("T".to_string())
        .with_content("C".to_string());
    assert_eq!(u.title, Some("T".to_string()));
    assert_eq!(u.content, Some("C".to_string()));
    assert_eq!(DeleteDocumentCommand::new("x".to_string()).id, "x");
    assert_eq!(ScanDocumentCommand::new("/p".to_string()).file_path, "/p");
    assert_eq!(ProcessOcrCommand::new("d".to_string(), None).language, "eng");
    assert_eq!(ProcessOcrCommand::new("d".to_string(), Some("spa".to_string())).language, "spa");
    assert_eq!(GetDocumentQuery::new("q".to_string()).id, "q");
    let l = ListDocumentsQuery::default();
    assert_eq!((l.limit, l.offset), (10, 0));
    let l = ListDocumentsQuery::new(5, 2);
    assert_eq!((l.limit, l.offset), (5, 2));
    let s = SearchDocumentsQuery::default();
    assert_eq!((s.query.as_str(), s.limit), ("", 20));
    let s = SearchDocumentsQuery::new("abc".to_string(), 3);
    assert_eq!((s.query.as_str(), s.limit), ("abc", 3));
}

#[test]
fn dto_de_documento() {
    let mut d = documento("z", "Título", 4, &["k"]);
    d.content = "cuerpo".to_string();
    let dto = DocumentDto::from(d);
    assert_eq!(dto.id, "z");
    assert_eq!(dto.title, "Título");
    assert_eq!(dto.content, "cuerpo");
    assert_eq!(dto.tags, vec!["k".to_string()]);
    assert_eq!(dto.created_at, Instante { segundos: 4, nanos: 0 });
}

#[test]
fn identificadores_nuevos() {
    let a = DocumentId::new();
    let b = DocumentId::default();
    assert_eq!(a.0.len(), 36);
    assert_ne!(a.0, b.0);
    assert_eq!(DocumentId::from_str("x").0, "x");
}

#[test]
fn comandos_de_la_interfaz() {
    let mut state = AppState::default();
    assert!(state.list_documents(None, None).unwrap().is_empty());
    let id = state.create_document("Oficio".to_string(), "texto".to_string()).unwrap();
    assert_eq!(id.len(), 36);
    let dto = state.get_document(id.clone()).unwrap().unwrap();
    assert_eq!(dto.id, id);
    assert_eq!(dto.title, "Oficio");
    assert_eq!(dto.content, "texto");
    assert!(state.get_document("otro".to_string()).unwrap().is_none());
    let segundo = state.create_document("Dos".to_string(), String::new()).unwrap();
    assert_eq!(state.list_documents(None, None).unwrap().len(), 2);
    assert_eq!(state.list_documents(Some(1), Some(1)).unwrap().len(), 1);
    assert!(state.list_documents(None, Some(5)).unwrap().is_empty());
    state.delete_document(id.clone()).unwrap();
    assert!(state.get_document(id).unwrap().is_none());
    let quedan = state.list_documents(None, None).unwrap();
    assert_eq!(quedan.len(), 1);
    assert_eq!(quedan[0].id, segundo);
    assert_eq!(greet("Ana"), "Hello, Ana! You've been greeted from Rust!");
}

#[test]
fn error_de_la_api_de_texto() {
    assert_eq!(mensaje_error_api("429 Too Many Requests"), "Gemini API error: 429 Too Many Requests");
}

#[test]
fn resultado_de_escaneo_segun_el_disco() {
    let s = ScannerService::new();
    let ruta = FilePath::new("/scans/2024/oficio.tif").unwrap();
    assert_eq!(
        s.resultado_escaneo(&ruta, false, Some(9)).err(),
        Some(DomainError::FileNotFound("/scans/2024/oficio.tif".to_string()))
    );
    assert_eq!(s.resultado_escaneo(&ruta, true, None).err(), Some(DomainError::FileReadError));
    let r = s.resultado_escaneo(&ruta, true, Some(9)).unwrap();
    assert_eq!(r.metadata.file_name, "oficio.tif");
    assert_eq!(r.metadata.file_size, 9);
    assert_eq!(r.metadata.mime_type, "image/tiff");
    assert!(r.success);
}

#[test]
fn extensiones_de_rutas_sencillas() {
    let fs = FileSystem::new();
    assert_eq!(fs.get_extension(&FilePath::new("informe.tar.gz").unwrap()), Some("gz".to_string()));
    assert_eq!(fs.get_extension(&FilePath::new("nota.").unwrap()), Some("".to_string()));
    assert_eq!(fs.get_extension(&FilePath::new("/a.b/c").unwrap()), None);
    assert_eq!(FilePath::new("/docs/.oculto").unwrap().extension(), None);
}

#[test]
fn tipo_mime_segun_la_extension() {
    let s = ScannerService::new();
    let mime = |p: &str| s.resultado_escaneo(&FilePath::new(p).unwrap(), true, Some(1)).unwrap().metadata.mime_type;
    assert_eq!(mime("scan.jpeg"), "image/jpeg");
    assert_eq!(mime("scan.tif"), "image/tiff");
    assert_eq!(mime("/tmp/a.pdf"), "application/pdf");
    assert_eq!(mime("SCAN.PDF"), "application/octet-stream");
    assert_eq!(mime("LEEME"), "application/octet-stream");
    assert_eq!(mime("dir/foto.png/"), "image/png");
}

#[test]
fn extensiones_de_nombres_especiales() {
    assert_eq!(FilePath::new("a/.bashrc").unwrap().extension(), None);
    assert_eq!(FilePath::new("a/.config.json").unwrap().extension(), Some("json"));
    assert_eq!(FilePath::new("a/b.pdf/").unwrap().extension(), Some("pdf"));
    assert_eq!(FilePath::new("x.").unwrap().extension(), Some(""));
    assert_eq!(FilePath::new("/").unwrap().extension(), None);
    assert_eq!(FileSystem::new().get_extension(&FilePath::new("Oficio.PDF").unwrap()), Some("PDF".to_string()));
}

#[test]
fn identificadores_uuid_v4() {
    for _ in 0..20 {
        let id = DocumentId::new().0;
        let cs: Vec<char> = id.chars().collect();
        assert_eq!(cs.len(), 36);
        for (i, c) in cs.iter().enumerate() {
            if i == 8 || i == 13 || i == 18 || i == 23 {
                assert_eq!(*c, '-');
            } else {
                assert!(c.is_ascii_digit() || ('a'..='f').contains(c));
            }
        }
        assert_eq!(cs[14], '4');
        assert!(matches!(cs[19], '8' | '9' | 'a' | 'b'));
    }
}
