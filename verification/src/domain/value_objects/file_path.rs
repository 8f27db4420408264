//! File path value object.

use vstd::prelude::*;
use crate::texto::{a_caracteres, contiene, ultimo_segmento, unir};

verus! {

#[verifier::external_type_specification]
#[verifier::external_body]
pub struct ExPathBuf(std::path::PathBuf);

/// Why a text is not accepted as a file path.
#[derive(Debug, Clone, Copy, PartialEq, Eq, Structural)]
pub enum FilePathError {
    EmptyPath,
    InvalidCharacters,
    InvalidPath,
}

impl FilePathError {
    /// The message of the error.
    pub fn to_string(&self) -> (r: String)
        ensures
            r@ == mensaje_error_ruta(*self),
    {
        match self {
            FilePathError::EmptyPath => String::from_str("File path cannot be empty"),
            FilePathError::InvalidCharacters => String::from_str(
                "File path contains invalid characters",
            ),
            FilePathError::InvalidPath => String::from_str("Invalid file path"),
        }
    }
}

/// The message of each path error.
pub open spec fn mensaje_error_ruta(e: FilePathError) -> Seq<char> {
    match e {
        FilePathError::EmptyPath => "File path cannot be empty"@,
        FilePathError::InvalidCharacters => "File path contains invalid characters"@,
        FilePathError::InvalidPath => "Invalid file path"@,
    }
}

/// What `FilePath::new` answers for a text: empty texts and texts with a NUL character
/// are refused.
pub open spec fn validar_ruta(path: Seq<char>) -> Result<Seq<char>, FilePathError> {
    if path.len() == 0 {
        Err(FilePathError::EmptyPath)
    } else if path.contains('\0') {
        Err(FilePathError::InvalidCharacters)
    } else {
        Ok(path)
    }
}

/// The part of `s` after its last `'.'`, or all of `s` when it has none.
pub open spec fn tras_ultimo_punto(s: Seq<char>) -> Seq<char>
    decreases s.len(),
{
    if s.len() == 0 {
        s
    } else if s.last() == '.' {
        Seq::empty()
    } else {
        tras_ultimo_punto(s.drop_last()).push(s.last())
    }
}

/// A path whose components are separated by `'/'` alone on every platform: it holds no
/// `'\\'` and no `':'` (which could start a Windows prefix) and does not start with `"//"`
/// (a Windows network share).
pub open spec fn ruta_sencilla(s: Seq<char>) -> bool {
    &&& !s.contains('\\')
    &&& !s.contains(':')
    &&& !(s.len() >= 2 && s[0] == '/' && s[1] == '/')
}

/// `s` without its trailing `'/'`s.
pub open spec fn sin_barras_finales(s: Seq<char>) -> Seq<char>
    decreases s.len(),
{
    if s.len() > 0 && s.last() == '/' {
        sin_barras_finales(s.drop_last())
    } else {
        s
    }
}

/// The last component of a `'/'`-separated path: the part after its last `'/'` once its
/// trailing `'/'`s are dropped (empty for a path made of `'/'`s alone).
pub open spec fn nombre_de_archivo(s: Seq<char>) -> Seq<char> {
    ultimo_segmento(sin_barras_finales(s))
}

/// The last component of the path is neither `"."` nor `".."`, so it is the path's file
/// name when it is not empty.
pub open spec fn nombre_ordinario(s: Seq<char>) -> bool {
    nombre_de_archivo(s) != seq!['.'] && nombre_de_archivo(s) != seq!['.', '.']
}

/// The extension of a `'/'`-separated path whose last component is ordinary, as std
/// documents it: none without a file name, none when the file name has no `'.'` after its
/// first character, else the part of the file name after its final `'.'`.
pub open spec fn extension_sencilla(s: Seq<char>) -> Option<Seq<char>> {
    let n = nombre_de_archivo(s);
    if n.len() > 0 && n.drop_first().contains('.') {
        Some(tras_ultimo_punto(n))
    } else {
        None
    }
}

/// The text of an optional string slice.
pub open spec fn texto_opcional_str(o: Option<&str>) -> Option<Seq<char>> {
    match o {
        Some(s) => Some(s@),
        None => None,
    }
}

/// A validated file path: never empty, never holding a NUL character.
pub struct FilePath {
    ruta: String,
}

impl View for FilePath {
    type V = Seq<char>;

    closed spec fn view(&self) -> Seq<char> {
        self.ruta@
    }
}

impl FilePath {
    /// Every path value holds a valid text.
    #[verifier::type_invariant]
    spec fn texto_valido(self) -> bool {
        validar_ruta(self.ruta@) is Ok
    }

    /// Well-formedness: the path text is valid.
    pub closed spec fn bien_formada(&self) -> bool {
        validar_ruta(self.ruta@) == Ok::<Seq<char>, FilePathError>(self.ruta@)
    }

    /// Validates a path text.
    pub fn new(path: &str) -> (r: Result<FilePath, FilePathError>)
        ensures
            match r {
                Ok(p) => validar_ruta(path@) == Ok::<Seq<char>, FilePathError>(p@) && p.bien_formada(),
                Err(e) => validar_ruta(path@) == Err::<Seq<char>, FilePathError>(e),
            },
    {
        let cs = a_caracteres(path);
        if cs.len() == 0 {
            return Err(FilePathError::EmptyPath);
        }
        let mut i: usize = 0;
        while i < cs.len()
            invariant
                i <= cs@.len(),
                cs@ == path@,
                forall|j: int| 0 <= j < i ==> cs@[j] != '\0',
            decreases cs@.len() - i,
        {
            if cs[i] == '\0' {
                assert(path@.contains('\0')) by {
                    assert(path@[i as int] == '\0');
                }
                return Err(FilePathError::InvalidCharacters);
            }
            i = i + 1;
        }
        Ok(FilePath { ruta: String::from_str(path) })
    }

    /// Validates the text of a path buffer; a buffer that is not valid Unicode
    /// counts as the empty text.
    pub fn from_path_buf(path: std::path::PathBuf) -> (r: Result<FilePath, FilePathError>)
        ensures
            match r {
                Ok(p) => p.bien_formada() && p@.len() > 0 && !p@.contains('\0'),
                Err(e) => e == FilePathError::EmptyPath || e == FilePathError::InvalidCharacters,
            },
    {
        match texto_de_ruta(&path) {
            Some(s) => FilePath::new(s.as_str()),
            None => FilePath::new(""),
        }
    }

    /// The path as a path buffer.
    pub fn as_path(&self) -> std::path::PathBuf {
        ruta_desde_texto(self.ruta.as_str())
    }

    /// The path as text; a validated path always has one, never empty and without NUL.
    pub fn as_str(&self) -> (r: Option<&str>)
        ensures
            r matches Some(s) && s@ == self@ && s@.len() > 0 && !s@.contains('\0'),
    {
        proof {
            use_type_invariant(self);
        }
        Some(self.ruta.as_str())
    }

    /// Whether something exists at this path on disk.
    pub fn exists_on_disk(&self) -> bool {
        existe_ruta(self.ruta.as_str())
    }

    /// The extension of the path's file name.
    pub fn extension(&self) -> (r: Option<&str>)
        ensures
            r matches Some(e) ==> !e@.contains('.') && contiene(self@, seq!['.'] + e@),
            !self@.contains('.') ==> r is None,
            ruta_sencilla(self@) && nombre_ordinario(self@) ==> texto_opcional_str(r) == extension_sencilla(self@),
    {
        extension_de(self.ruta.as_str())
    }
}

/// The text of a path buffer.
///
/// Trusted: `PathBuf::to_str`, copied into a `String`; it gives the text when the path is
/// valid Unicode. The path buffer is opaque here, so nothing is claimed of the result.
#[verifier::external_body]
fn texto_de_ruta(p: &std::path::PathBuf) -> Option<String> {
    p.to_str().map(|s| s.to_string())
}

/// A path buffer holding the text.
///
/// Trusted: `PathBuf::from`; the path buffer is opaque here, so nothing is claimed of it.
#[verifier::external_body]
fn ruta_desde_texto(s: &str) -> std::path::PathBuf {
    std::path::PathBuf::from(s)
}

/// Whether something exists at the path.
///
/// Trusted: `std::path::Path::exists`; the answer depends on the file system, so nothing
/// is claimed of it.
#[verifier::external_body]
fn existe_ruta(s: &str) -> bool {
    std::path::Path::new(s).exists()
}

/// The extension of the path's file name.
///
/// Trusted: `std::path::Path::extension`, read back as text. std documents it as the part
/// of the file name after its final `'.'` (`None` when the file name has no embedded `'.'`);
/// the contract claims that an extension holds no `'.'`, occurs in the path right after a
/// `'.'`, and that a path without any `'.'` has none. For a path separated by `'/'` alone
/// (`ruta_sencilla`) whose last component is neither `"."` nor `".."`, std documents the
/// file name as that last component (trailing `'/'`s aside) and the extension as in
/// `extension_sencilla`; the contract states that too. Other paths are parsed differently
/// on each platform (`'\\'` separators, prefixes, network shares), which is why no more
/// is claimed of them.
#[verifier::external_body]
fn extension_de(s: &str) -> (r: Option<&str>)
    ensures
        r matches Some(e) ==> !e@.contains('.') && contiene(s@, seq!['.'] + e@),
        !s@.contains('.') ==> r is None,
        ruta_sencilla(s@) && nombre_ordinario(s@) ==> texto_opcional_str(r) == extension_sencilla(s@),
{
    std::path::Path::new(s).extension().and_then(|e| e.to_str())
}

} // verus!
