//! Naming of the PDFs the pipeline assembles. Writing the PDF itself (page geometry in
//! points, image and text layers) happens at the application's edge.

use vstd::prelude::*;
use crate::domain::entities::document::{es_uuid_v4, nuevo_uuid};
use crate::texto::{a_cadena, a_caracteres, barras_a_guiones, reemplazar_barras, unir3};

verus! {

/// A directory path joined with a file name.
///
/// Trusted: `std::path::Path::join`; path buffers are opaque here, so nothing is claimed of
/// the result.
#[verifier::external_body]
fn unir_ruta(directorio: &std::path::PathBuf, nombre: &str) -> std::path::PathBuf {
    directorio.join(nombre)
}

/// Assembles the PDFs of scanned pages at a given resolution.
pub struct PdfBuilder {
    dpi: u32,
}

impl PdfBuilder {
    /// The resolution, in dots per inch, of the pages it assembles.
    pub closed spec fn resolucion(&self) -> u32 {
        self.dpi
    }

    /// A builder for pages scanned at `dpi` dots per inch.
    pub fn new(dpi: u32) -> (r: PdfBuilder)
        ensures
            r.resolucion() == dpi,
    {
        PdfBuilder { dpi }
    }

    /// The resolution of the pages it assembles.
    pub fn dpi(&self) -> (r: u32)
        ensures
            r == self.resolucion(),
    {
        self.dpi
    }

    /// A fresh file name for the PDF of an oficio: its number with every `'/'` made
    /// `'_'`, then `'_'`, a random version 4 UUID in hyphenated form, and `".pdf"`.
    pub fn nombre_unico(numero_oficio: &str) -> (r: String)
        ensures
            r@.len() == numero_oficio@.len() + 41,
            r@.subrange(0, numero_oficio@.len() + 1int) == barras_a_guiones(numero_oficio@) + "_"@,
            r@.subrange(r@.len() - 4, r@.len() as int) == ".pdf"@,
            es_uuid_v4(r@.subrange(numero_oficio@.len() + 1int, numero_oficio@.len() + 37int)),
    {
        let cs = a_caracteres(numero_oficio);
        let base = a_cadena(reemplazar_barras(cs.as_slice()).as_slice());
        let id = nuevo_uuid();
        let mut r = unir3(base.as_str(), "_", id.as_str());
        r.append(".pdf");
        proof {
            reveal_strlit("_");
            reveal_strlit(".pdf");
            let n = numero_oficio@.len() as int;
            assert(r@ == barras_a_guiones(numero_oficio@) + "_"@ + id@ + ".pdf"@);
            assert(r@.subrange(0, n + 1) =~= barras_a_guiones(numero_oficio@) + "_"@);
            assert(r@.subrange(r@.len() - 4, r@.len() as int) =~= ".pdf"@);
            assert(r@.subrange(n + 1, n + 37) =~= id@);
        }
        r
    }

    /// A fresh path for the PDF of an oficio inside `directorio_base`, named as
    /// `nombre_unico` gives.
    pub fn generar_ruta_pdf(&self, directorio_base: &std::path::PathBuf, numero_oficio: &str) -> std::path::PathBuf {
        let nombre = PdfBuilder::nombre_unico(numero_oficio);
        unir_ruta(directorio_base, nombre.as_str())
    }
}

} // verus!
