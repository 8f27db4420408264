//! File system service: the path queries of the library. Reading and writing files
//! happen at the application's edge.

use vstd::prelude::*;
use crate::domain::value_objects::FilePath;
use crate::domain::entities::document::texto_opcional;
use crate::domain::value_objects::file_path::{extension_sencilla, nombre_ordinario, ruta_sencilla};
use crate::texto::contiene;

verus! {

/// Service for file system queries.
pub struct FileSystem;

impl FileSystem {
    /// A new file system service.
    pub fn new() -> FileSystem {
        FileSystem
    }

    /// Whether something exists at the path.
    pub fn exists_on_disk(&self, path: &FilePath) -> bool {
        path.exists_on_disk()
    }

    /// The extension of the path's file name, as an owned string.
    pub fn get_extension(&self, path: &FilePath) -> (r: Option<String>)
        ensures
            r matches Some(e) ==> !e@.contains('.') && contiene(path@, seq!['.'] + e@),
            !path@.contains('.') ==> r is None,
            ruta_sencilla(path@) && nombre_ordinario(path@) ==> texto_opcional(r) == extension_sencilla(path@),
    {
        match path.extension() {
            Some(e) => Some(String::from_str(e)),
            None => None,
        }
    }
}

impl Default for FileSystem {
    fn default() -> FileSystem {
        FileSystem::new()
    }
}

} // verus!
