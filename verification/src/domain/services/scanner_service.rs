//! Scanner service: metadata of scanned files.

use vstd::prelude::*;
use crate::domain::entities::document::es_uuid_v4;
use crate::domain::entities::{DocumentId, ScanMetadata, ScanResult};
use crate::domain::value_objects::FilePath;
use crate::domain::value_objects::file_path::{extension_sencilla, nombre_ordinario, ruta_sencilla, texto_opcional_str};
use crate::error::DomainError;
use crate::reloj::ahora;
use crate::texto::{a_caracteres, a_cadena, segmento_final, textos_iguales, ultimo_segmento};

verus! {

/// The MIME type for a file extension.
pub open spec fn tipo_mime(extension: Option<Seq<char>>) -> Seq<char> {
    match extension {
        Some(e) => if e == "pdf"@ {
            "application/pdf"@
        } else if e == "jpg"@ || e == "jpeg"@ {
            "image/jpeg"@
        } else if e == "png"@ {
            "image/png"@
        } else if e == "gif"@ {
            "image/gif"@
        } else if e == "tiff"@ || e == "tif"@ {
            "image/tiff"@
        } else if e == "bmp"@ {
            "image/bmp"@
        } else if e == "txt"@ {
            "text/plain"@
        } else {
            "application/octet-stream"@
        },
        None => "application/octet-stream"@,
    }
}

/// The MIME type for a file extension.
pub fn mime_para_extension(extension: Option<&str>) -> (r: String)
    ensures
        r@ == tipo_mime(texto_opcional_str(extension)),
{
    match extension {
        Some(e) => if textos_iguales(e, "pdf") {
            String::from_str("application/pdf")
        } else if textos_iguales(e, "jpg") || textos_iguales(e, "jpeg") {
            String::from_str("image/jpeg")
        } else if textos_iguales(e, "png") {
            String::from_str("image/png")
        } else if textos_iguales(e, "gif") {
            String::from_str("image/gif")
        } else if textos_iguales(e, "tiff") || textos_iguales(e, "tif") {
            String::from_str("image/tiff")
        } else if textos_iguales(e, "bmp") {
            String::from_str("image/bmp")
        } else if textos_iguales(e, "txt") {
            String::from_str("text/plain")
        } else {
            String::from_str("application/octet-stream")
        },
        None => String::from_str("application/octet-stream"),
    }
}

/// A successful scan of the file at `path` of the given size: named after the last
/// component of the path, typed by its extension (exactly so where the extension is
/// known, see `extension_sencilla`), for a new document.
pub open spec fn escaneo_correcto(s: ScanResult, path: Seq<char>, file_size: Option<u64>) -> bool {
    &&& file_size == Some(s.metadata.file_size)
    &&& s.metadata.file_name@ == ultimo_segmento(path)
    &&& exists|e: Option<Seq<char>>| s.metadata.mime_type@ == #[trigger] tipo_mime(e)
    &&& !path.contains('.') ==> s.metadata.mime_type@ == tipo_mime(None)
    &&& ruta_sencilla(path) && nombre_ordinario(path) ==> s.metadata.mime_type@ == tipo_mime(extension_sencilla(path))
    &&& es_uuid_v4(s.document_id.0@)
    &&& es_uuid_v4(s.id@)
    &&& s.success
    &&& s.error_message is None
}

/// Service for scanning files.
pub struct ScannerService;

impl ScannerService {
    /// A new scanner service.
    pub fn new() -> ScannerService {
        ScannerService
    }

    /// Records the scan of a file of the given size (`None` when its metadata could not be
    /// read): fails with `FileNotFound` when nothing exists at the path, else with
    /// `FileReadError` without metadata; otherwise a successful result for a new document,
    /// named after the last component of the path and dated now.
    pub fn scan_file(&self, path: &FilePath, file_size: Option<u64>) -> (r: Result<ScanResult, DomainError>)
        ensures
            r matches Err(DomainError::FileNotFound(p)) ==> p@ == path@,
            r matches Err(e) ==> e is FileNotFound || (e is FileReadError && file_size is None),
            file_size is None ==> r is Err,
            r matches Ok(s) ==> escaneo_correcto(s, path@, file_size),
    {
        let existe = path.exists_on_disk();
        self.resultado_escaneo(path, existe, file_size)
    }

    /// The outcome of scanning the file at `path`, given whether something exists there
    /// and the file's size (`None` when its metadata could not be read): `FileNotFound`
    /// with the path when nothing exists, else `FileReadError` without a size, else a
    /// successful result for a new document, named after the last component of the path.
    pub fn resultado_escaneo(&self, path: &FilePath, existe: bool, file_size: Option<u64>) -> (r: Result<ScanResult, DomainError>)
        ensures
            !existe ==> (r matches Err(DomainError::FileNotFound(p)) && p@ == path@),
            existe && file_size is None ==> r matches Err(DomainError::FileReadError),
            existe && file_size is Some ==> (r matches Ok(s) && escaneo_correcto(s, path@, file_size)),
    {
        if !existe {
            let texto = match path.as_str() {
                Some(p) => String::from_str(p),
                None => String::new(),
            };
            return Err(DomainError::FileNotFound(texto));
        }
        let file_name = match path.as_str() {
            Some(p) => {
                let cs = a_caracteres(p);
                a_cadena(segmento_final(&cs).as_slice())
            },
            None => String::from_str("unknown"),
        };
        let size = match file_size {
            Some(n) => n,
            None => {
                return Err(DomainError::FileReadError);
            },
        };
        let mime_type = self.detect_mime_type(path);
        let scan_metadata = ScanMetadata { file_name, file_size: size, mime_type, scan_date: ahora() };
        let document_id = DocumentId::new();
        Ok(ScanResult::new(document_id, scan_metadata))
    }

    /// The MIME type for the path's extension.
    fn detect_mime_type(&self, path: &FilePath) -> (r: String)
        ensures
            exists|e: Option<Seq<char>>| r@ == #[trigger] tipo_mime(e),
            !path@.contains('.') ==> r@ == tipo_mime(None),
            ruta_sencilla(path@) && nombre_ordinario(path@) ==> r@ == tipo_mime(extension_sencilla(path@)),
    {
        let ext = path.extension();
        let r = mime_para_extension(ext);
        assert(r@ == tipo_mime(texto_opcional_str(ext)));
        r
    }
}

impl Default for ScannerService {
    fn default() -> ScannerService {
        ScannerService::new()
    }
}

} // verus!
