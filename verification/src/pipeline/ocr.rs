//! State of the offline OCR engine. Recognition itself runs at the application's edge.

use vstd::prelude::*;
use crate::texto::{a_caracteres, dividir_lineas, lineas};

verus! {

/// OCR engine: whether the platform recognizer could be created, and the languages asked for.
pub struct OcrEngine {
    motor_disponible: bool,
    idiomas_soportados: Vec<String>,
}

impl OcrEngine {
    /// The engine for the given language; `motor_disponible` tells whether the platform
    /// recognizer could be created.
    pub fn new(idioma: &str, motor_disponible: bool) -> (r: OcrEngine)
        ensures
            r.disponible() == motor_disponible,
            r.idiomas().len() == 1,
            r.idiomas()[0]@ == idioma@,
    {
        OcrEngine { motor_disponible, idiomas_soportados: vec![String::from_str(idioma)] }
    }

    /// The platform recognizer exists.
    pub closed spec fn disponible(&self) -> bool {
        self.motor_disponible
    }

    /// The languages of the engine.
    pub closed spec fn idiomas(&self) -> Seq<String> {
        self.idiomas_soportados@
    }

    /// Whether the OCR engine is available.
    pub fn esta_disponible(&self) -> (r: bool)
        ensures
            r == self.disponible(),
    {
        self.motor_disponible
    }

    /// The supported languages.
    pub fn idiomas_soportados(&self) -> (r: &[String])
        ensures
            r@ == self.idiomas(),
    {
        self.idiomas_soportados.as_slice()
    }
}

/// The number of lines the recognizer detected in its text, counted as `str::lines`
/// counts them.
pub fn lineas_detectadas(texto: &str) -> (r: usize)
    ensures
        r == lineas(texto@).len(),
{
    let cs = a_caracteres(texto);
    let ls = dividir_lineas(cs.as_slice());
    proof {
        assert(crate::texto::vistas(ls@).len() == ls@.len());
    }
    ls.len()
}

} // verus!
