//! Google Gemini text generation: request addresses, prompts and the reading of replies.
//! The HTTP exchange itself happens at the application's edge.

use vstd::prelude::*;
use crate::domain::entities::document::textos;
use crate::texto::{
    a_cadena, a_caracteres, dividir_lineas, lineas, quitar_prefijo_repetido, recortado, recortar,
    sin_prefijo_repetido, unir, unir3,
};

verus! {

/// Base address of the Gemini API.
pub open spec fn base_gemini() -> Seq<char> {
    "https://generativelanguage.googleapis.com/v1beta"@
}

/// The address for generating content with the given API key.
pub fn url_generar_contenido(api_key: &str) -> (r: String)
    ensures
        r@ == base_gemini() + "/models/gemini-pro:generateContent?key="@ + api_key@,
{
    unir3("https://generativelanguage.googleapis.com/v1beta", "/models/gemini-pro:generateContent?key=", api_key)
}

/// The error message for a reply with a failure status (given by its status line).
pub fn mensaje_error_api(estado: &str) -> (r: String)
    ensures
        r@ == "Gemini API error: "@ + estado@,
{
    unir("Gemini API error: ", estado)
}

/// The text of the first part of the first candidate of a reply, or the empty text
/// when the reply has no candidate or its first candidate has no part. Each candidate is
/// given as the texts of its parts.
pub fn texto_de_respuesta(candidates: Option<Vec<Vec<String>>>) -> (r: String)
    ensures
        r@ == match candidates {
            Some(c) => if c@.len() > 0 && c@[0]@.len() > 0 {
                c@[0]@[0]@
            } else {
                Seq::<char>::empty()
            },
            None => Seq::<char>::empty(),
        },
{
    match candidates {
        Some(c) => {
            if c.len() > 0 && c[0].len() > 0 {
                c[0][0].clone()
            } else {
                String::new()
            }
        },
        None => String::new(),
    }
}

/// The prompt that asks for a summary of the text.
pub fn prompt_resumen(text: &str) -> (r: String)
    ensures
        r@ == "Please provide a concise summary of the following text:\n\n"@ + text@,
{
    unir("Please provide a concise summary of the following text:\n\n", text)
}

/// The prompt that asks for the key points of the text.
pub fn prompt_puntos_clave(text: &str) -> (r: String)
    ensures
        r@ == "Extract the key points from the following text as a bulleted list:\n\n"@ + text@,
{
    unir("Extract the key points from the following text as a bulleted list:\n\n", text)
}

/// The bullet character `'•'`.
pub open spec fn vineta() -> char {
    '\u{2022}'
}

/// A line is a bullet when, trimmed, it starts with `'-'` or `'•'`.
pub open spec fn es_vineta(l: Seq<char>) -> bool {
    let t = recortado(l);
    t.len() > 0 && (t[0] == '-' || t[0] == vineta())
}

/// The text of a bullet line: trimmed, without its leading `'-'`s, then without its
/// leading `'•'`s, and trimmed again.
pub open spec fn texto_de_vineta(l: Seq<char>) -> Seq<char> {
    recortado(sin_prefijo_repetido(sin_prefijo_repetido(recortado(l), '-'), vineta()))
}

/// The texts of the bullet lines among `ls`, in order.
pub open spec fn puntos_de_lineas(ls: Seq<Seq<char>>) -> Seq<Seq<char>>
    decreases ls.len(),
{
    if ls.len() == 0 {
        Seq::empty()
    } else if es_vineta(ls.last()) {
        puntos_de_lineas(ls.drop_last()).push(texto_de_vineta(ls.last()))
    } else {
        puntos_de_lineas(ls.drop_last())
    }
}

/// The key points of a reply: the texts of its bullet lines, in order.
pub open spec fn puntos_clave(respuesta: Seq<char>) -> Seq<Seq<char>> {
    puntos_de_lineas(lineas(respuesta))
}

/// Reads the key points of a reply: every line that, trimmed, starts with `'-'` or `'•'`,
/// with those marks and the surrounding whitespace removed.
pub fn extraer_puntos_clave(respuesta: &str) -> (r: Vec<String>)
    ensures
        textos(r@) == puntos_clave(respuesta@),
{
    let cs = a_caracteres(respuesta);
    let ls = dividir_lineas(&cs);
    let ghost vls = crate::texto::vistas(ls@);
    let mut r: Vec<String> = Vec::new();
    let mut i: usize = 0;
    while i < ls.len()
        invariant
            i <= ls@.len(),
            vls == crate::texto::vistas(ls@),
            vls == lineas(respuesta@),
            textos(r@) == puntos_de_lineas(vls.take(i as int)),
        decreases ls@.len() - i,
    {
        let ghost l = vls[i as int];
        assert(ls@[i as int]@ == l);
        assert(vls.take(i as int + 1).drop_last() =~= vls.take(i as int));
        assert(vls.take(i as int + 1).last() == l);
        let t = recortar(ls[i].as_slice());
        if t.len() > 0 && (t[0] == '-' || t[0] == '\u{2022}') {
            let sin_guiones = quitar_prefijo_repetido(t.as_slice(), '-');
            let sin_vinetas = quitar_prefijo_repetido(sin_guiones.as_slice(), '\u{2022}');
            let punto = recortar(sin_vinetas.as_slice());
            let ghost antes = r@;
            r.push(a_cadena(punto.as_slice()));
            assert(textos(r@) =~= textos(antes).push(texto_de_vineta(l)));
        }
        i = i + 1;
    }
    assert(vls.take(ls@.len() as int) =~= vls);
    r
}

} // verus!
