//! Scanner configuration and the platform decisions of document acquisition.
//! Acquiring the image from the device happens at the application's edge.

use vstd::prelude::*;
use crate::pipeline::error::{AppError, AppResult};
use crate::domain::entities::document::{es_uuid_v4, nuevo_uuid, textos};
use crate::texto::unir3;

verus! {

/// Color modes for document scanning.
#[derive(Debug, Clone, Copy, PartialEq, Eq, Structural)]
pub enum ColorMode {
    BlancoYNegro,
    EscalaGrises,
    Color,
}

/// Scanner configuration.
#[derive(Debug, Clone, Copy, PartialEq, Eq, Structural)]
pub struct ScannerConfig {
    pub dpi: u32,
    pub formato_color: ColorMode,
    pub timeout_ms: u64,
}

impl Default for ScannerConfig {
    /// 300 DPI, in color, with a ten second timeout.
    fn default() -> (r: ScannerConfig)
        ensures
            r == (ScannerConfig { dpi: 300, formato_color: ColorMode::Color, timeout_ms: 10000 }),
    {
        ScannerConfig { dpi: 300, formato_color: ColorMode::Color, timeout_ms: 10000 }
    }
}

/// The scanners that the service reports: on Windows, the WIA/TWAIN devices found on the
/// system; elsewhere, where WIA/TWAIN does not exist, the single development stand-in.
pub open spec fn escaneres_informados(en_windows: bool, detectados: Seq<Seq<char>>) -> Seq<Seq<char>> {
    if en_windows {
        detectados
    } else {
        seq!["Simulado (Modo Desarrollo)"@]
    }
}

/// Scanning service with its configuration.
pub struct ScannerService {
    config: ScannerConfig,
}

impl ScannerService {
    /// The service's configuration.
    pub closed spec fn configuracion(&self) -> ScannerConfig {
        self.config
    }

    /// A service with the given configuration.
    pub fn new(config: ScannerConfig) -> (r: ScannerService)
        ensures
            r.configuracion() == config,
    {
        ScannerService { config }
    }

    /// The configuration the service scans with.
    pub fn config(&self) -> (r: ScannerConfig)
        ensures
            r == self.configuracion(),
    {
        self.config
    }

    /// The scanners available on the platform, given the names of the WIA/TWAIN devices
    /// that the system enumerates (`detectados`, in its order).
    pub fn verificar_disponibilidad(&self, en_windows: bool, detectados: Vec<String>) -> (r: AppResult<Vec<String>>)
        ensures
            r matches Ok(v) && textos(v@) == escaneres_informados(en_windows, textos(detectados@)),
    {
        if en_windows {
            Ok(detectados)
        } else {
            let v = vec![String::from_str("Simulado (Modo Desarrollo)")];
            assert(textos(v@) =~= escaneres_informados(en_windows, textos(detectados@)));
            Ok(v)
        }
    }

    /// The failure of an acquisition: without a WIA/TWAIN device driver the scanner never
    /// yields an image, and the message tells the platform apart.
    pub fn error_de_adquisicion(en_windows: bool) -> (r: AppError)
        ensures
            r matches AppError::Hardware(m) && m@ == (if en_windows {
                "WIA/TWAIN solo disponible en Windows. Usar imagen de prueba en desarrollo."@
            } else {
                "WIA/TWAIN requiere Windows. Configure una imagen de prueba."@
            }),
    {
        if en_windows {
            AppError::Hardware(
                String::from_str(
                    "WIA/TWAIN solo disponible en Windows. Usar imagen de prueba en desarrollo.",
                ),
            )
        } else {
            AppError::Hardware(String::from_str("WIA/TWAIN requiere Windows. Configure una imagen de prueba."))
        }
    }
}

/// The file name under which a scanned page is kept for processing: `"scan_"`, a random
/// version 4 UUID in hyphenated form, and `".png"`.
pub fn nombre_imagen_temporal() -> (r: String)
    ensures
        r@.len() == 45,
        r@.subrange(0, 5) == "scan_"@,
        es_uuid_v4(r@.subrange(5, 41)),
        r@.subrange(41, 45) == ".png"@,
{
    let id = nuevo_uuid();
    let r = unir3("scan_", id.as_str(), ".png");
    proof {
        reveal_strlit("scan_");
        reveal_strlit(".png");
        assert(r@.subrange(0, 5) =~= "scan_"@);
        assert(r@.subrange(5, 41) =~= id@);
        assert(r@.subrange(41, 45) =~= ".png"@);
    }
    r
}

} // verus!
