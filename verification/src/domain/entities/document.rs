//! Document entity.

use vstd::prelude::*;
use crate::reloj::{ahora, Instante};

verus! {

/// A lowercase hexadecimal digit.
pub open spec fn es_hex_minuscula(c: char) -> bool {
    ('0' as u32 <= c as u32 && c as u32 <= '9' as u32) || ('a' as u32 <= c as u32 && c as u32 <= 'f' as u32)
}

/// The hyphenated text of a random (version 4, RFC 4122 variant) UUID: 36 characters,
/// `'-'` at positions 8, 13, 18 and 23, lowercase hexadecimal digits elsewhere, the version
/// digit `'4'` at position 14 and a variant digit among `'8'`, `'9'`, `'a'`, `'b'` at
/// position 19.
pub open spec fn es_uuid_v4(s: Seq<char>) -> bool {
    &&& s.len() == 36
    &&& forall|i: int| 0 <= i < 36 ==> (if i == 8 || i == 13 || i == 18 || i == 23 {
        #[trigger] s[i] == '-'
    } else {
        es_hex_minuscula(s[i])
    })
    &&& s[14] == '4'
    &&& (s[19] == '8' || s[19] == '9' || s[19] == 'a' || s[19] == 'b')
}

/// A fresh random identifier in its hyphenated textual form.
///
/// Trusted: `uuid::Uuid::new_v4` followed by its `Display`. The value is random; uuid
/// masks in the version (4) and RFC 4122 variant bits and formats the value as lowercase
/// hyphenated hex, which is all the contract claims. A failing system random source makes
/// uuid panic, which no argument can rule out.
#[verifier::external_body]
pub(crate) fn nuevo_uuid() -> (r: String)
    ensures
        es_uuid_v4(r@),
{
    uuid::Uuid::new_v4().to_string()
}

/// Unique identifier of a document.
pub struct DocumentId(pub String);

impl Clone for DocumentId {
    fn clone(&self) -> (r: Self)
        ensures
            r == *self,
    {
        DocumentId(self.0.clone())
    }
}

impl DocumentId {
    /// A new random identifier.
    pub fn new() -> (r: DocumentId)
        ensures
            es_uuid_v4(r.0@),
    {
        DocumentId(nuevo_uuid())
    }

    /// The identifier with the given text.
    pub fn from_str(id: &str) -> (r: DocumentId)
        ensures
            r.0@ == id@,
    {
        DocumentId(String::from_str(id))
    }
}

impl Default for DocumentId {
    fn default() -> (r: DocumentId)
        ensures
            es_uuid_v4(r.0@),
    {
        DocumentId::new()
    }
}

/// The tag list holds `tag`.
pub open spec fn tiene_etiqueta(tags: Seq<Seq<char>>, tag: Seq<char>) -> bool {
    tags.contains(tag)
}

/// The tag list after adding `tag`: unchanged when it is already there, else `tag` appended.
pub open spec fn con_etiqueta(tags: Seq<Seq<char>>, tag: Seq<char>) -> Seq<Seq<char>> {
    if tiene_etiqueta(tags, tag) {
        tags
    } else {
        tags.push(tag)
    }
}

/// The texts held by a list of strings.
pub open spec fn textos(v: Seq<String>) -> Seq<Seq<char>> {
    v.map_values(|t: String| t@)
}

/// The text of an optional string.
pub open spec fn texto_opcional(o: Option<String>) -> Option<Seq<char>> {
    match o {
        Some(s) => Some(s@),
        None => None,
    }
}

/// Core document entity.
pub struct Document {
    pub id: DocumentId,
    pub title: String,
    pub content: String,
    pub file_path: Option<String>,
    pub created_at: Instante,
    pub updated_at: Instante,
    pub tags: Vec<String>,
}

/// What a document holds, as mathematical values.
pub struct DocumentView {
    pub id: Seq<char>,
    pub title: Seq<char>,
    pub content: Seq<char>,
    pub file_path: Option<Seq<char>>,
    pub created_at: Instante,
    pub updated_at: Instante,
    pub tags: Seq<Seq<char>>,
}

impl View for Document {
    type V = DocumentView;

    open spec fn view(&self) -> DocumentView {
        DocumentView {
            id: self.id.0@,
            title: self.title@,
            content: self.content@,
            file_path: texto_opcional(self.file_path),
            created_at: self.created_at,
            updated_at: self.updated_at,
            tags: textos(self.tags@),
        }
    }
}

impl Clone for Document {
    fn clone(&self) -> (r: Self)
        ensures
            r@ == self@,
    {
        let tags = self.tags.clone();
        proof {
            assert(textos(tags@) =~= textos(self.tags@));
        }
        Document {
            id: self.id.clone(),
            title: self.title.clone(),
            content: self.content.clone(),
            file_path: match &self.file_path {
                Some(p) => Some(p.clone()),
                None => None,
            },
            created_at: self.created_at,
            updated_at: self.updated_at,
            tags,
        }
    }
}

impl Document {
    /// A new untagged document with a fresh identifier, created and updated now.
    pub fn new(title: String, content: String) -> (r: Document)
        ensures
            r@.title == title@,
            r@.content == content@,
            r@.file_path is None,
            r@.tags == Seq::<Seq<char>>::empty(),
            r@.created_at == r@.updated_at,
            es_uuid_v4(r@.id),
    {
        let now = ahora();
        let r = Document {
            id: DocumentId::new(),
            title,
            content,
            file_path: None,
            created_at: now,
            updated_at: now,
            tags: Vec::new(),
        };
        assert(textos(r.tags@) =~= Seq::<Seq<char>>::empty());
        r
    }

    /// The document with its file path set; its update time is refreshed.
    pub fn with_path(self, path: String) -> (r: Document)
        ensures
            r@ == (DocumentView { file_path: Some(path@), updated_at: r@.updated_at, ..self@ }),
    {
        let mut d = self;
        d.file_path = Some(path);
        d.updated_at = ahora();
        d
    }

    /// Adds a tag unless the document already has it; only an actual addition
    /// refreshes the update time.
    pub fn add_tag(&mut self, tag: String)
        ensures
            final(self)@.tags == con_etiqueta(old(self)@.tags, tag@),
            tiene_etiqueta(old(self)@.tags, tag@) ==> final(self)@ == old(self)@,
            final(self)@ == (DocumentView { tags: final(self)@.tags, updated_at: final(self)@.updated_at, ..old(self)@ }),
    {
        let mut i: usize = 0;
        while i < self.tags.len()
            invariant
                i <= self.tags@.len(),
                forall|j: int| 0 <= j < i ==> self.tags@[j]@ != tag@,
            decreases self.tags@.len() - i,
        {
            if self.tags[i] == tag {
                proof {
                    assert(textos(self.tags@)[i as int] == tag@);
                }
                return;
            }
            i = i + 1;
        }
        proof {
            assert forall|j: int| 0 <= j < textos(self.tags@).len() implies textos(self.tags@)[j] != tag@ by {
                assert(self.tags@[j]@ != tag@);
            }
        }
        let ghost antes = self.tags@;
        self.tags.push(tag);
        proof {
            assert(textos(self.tags@) =~= textos(antes).push(tag@));
        }
        self.updated_at = ahora();
    }

    /// Replaces the content and refreshes the update time.
    pub fn update_content(&mut self, content: String)
        ensures
            final(self)@ == (DocumentView { content: content@, updated_at: final(self)@.updated_at, ..old(self)@ }),
    {
        self.content = content;
        self.updated_at = ahora();
    }
}

} // verus!
