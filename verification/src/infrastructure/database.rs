//! In-memory document repository.

use vstd::prelude::*;
use crate::domain::entities::{Document, DocumentId, DocumentView};
use crate::domain::repositories::{
    es_orden_reciente, es_seleccion, etiqueta_coincide, ids_distintos, mas_recientes_primero,
    pagina, titulo_coincide, vistas_documentos, DocumentRepository,
};
use crate::error::DomainError;
use crate::reloj::es_antes;
use crate::texto::{a_caracteres, a_minusculas, buscar_subcadena, minusculas};

verus! {

broadcast use vstd::seq_lib::group_to_multiset_ensures;

/// The map from identifier to document described by a list of documents with distinct
/// identifiers.
pub open spec fn mapa_de(s: Seq<DocumentView>) -> Map<Seq<char>, DocumentView> {
    Map::new(
        |id: Seq<char>| exists|i: int| 0 <= i < s.len() && s[i].id == id,
        |id: Seq<char>| s[choose|i: int| 0 <= i < s.len() && s[i].id == id],
    )
}

proof fn lema_busqueda(s: Seq<DocumentView>, k: int)
    requires
        ids_distintos(s),
        0 <= k < s.len(),
    ensures
        mapa_de(s).contains_key(s[k].id),
        mapa_de(s)[s[k].id] == s[k],
{
    let id = s[k].id;
    assert(exists|i: int| 0 <= i < s.len() && s[i].id == id);
    let c = choose|i: int| 0 <= i < s.len() && s[i].id == id;
    assert(c == k);
}

proof fn lema_ausente(s: Seq<DocumentView>, id: Seq<char>)
    requires
        forall|i: int| 0 <= i < s.len() ==> s[i].id != id,
    ensures
        !mapa_de(s).contains_key(id),
{
}

proof fn lema_reemplazo(s: Seq<DocumentView>, k: int, x: DocumentView)
    requires
        ids_distintos(s),
        0 <= k < s.len(),
        s[k].id == x.id,
    ensures
        ids_distintos(s.update(k, x)),
        mapa_de(s.update(k, x)) == mapa_de(s).insert(x.id, x),
{
    let t = s.update(k, x);
    assert(ids_distintos(t)) by {
        assert forall|i: int, j: int| 0 <= i < t.len() && 0 <= j < t.len() && i != j implies #[trigger] t[i].id != #[trigger] t[j].id by {
            assert(s[i].id != s[j].id);
        }
    }
    let a = mapa_de(t);
    let b = mapa_de(s).insert(x.id, x);
    assert forall|id: Seq<char>| a.contains_key(id) <==> b.contains_key(id) by {
        if a.contains_key(id) {
            let i = choose|i: int| 0 <= i < t.len() && t[i].id == id;
            assert(s[i].id == id || i == k);
        }
        if b.contains_key(id) && id != x.id {
            let i = choose|i: int| 0 <= i < s.len() && s[i].id == id;
            assert(t[i].id == id);
        }
        if id == x.id {
            assert(t[k].id == id);
        }
    }
    assert forall|id: Seq<char>| a.contains_key(id) implies a[id] == b[id] by {
        let i = choose|i: int| 0 <= i < t.len() && t[i].id == id;
        lema_busqueda(t, i);
        if i != k {
            lema_busqueda(s, i);
        }
    }
    assert(a =~= b);
}

proof fn lema_agregado(s: Seq<DocumentView>, x: DocumentView)
    requires
        ids_distintos(s),
        forall|i: int| 0 <= i < s.len() ==> s[i].id != x.id,
    ensures
        ids_distintos(s.push(x)),
        mapa_de(s.push(x)) == mapa_de(s).insert(x.id, x),
{
    let t = s.push(x);
    let n = s.len() as int;
    assert(ids_distintos(t)) by {
        assert forall|i: int, j: int| 0 <= i < t.len() && 0 <= j < t.len() && i != j implies #[trigger] t[i].id != #[trigger] t[j].id by {
            if i < n && j < n {
                assert(s[i].id != s[j].id);
            }
        }
    }
    let a = mapa_de(t);
    let b = mapa_de(s).insert(x.id, x);
    assert forall|id: Seq<char>| a.contains_key(id) <==> b.contains_key(id) by {
        if a.contains_key(id) {
            let i = choose|i: int| 0 <= i < t.len() && t[i].id == id;
            if i < n {
                assert(s[i].id == id);
            }
        }
        if b.contains_key(id) && id != x.id {
            let i = choose|i: int| 0 <= i < s.len() && s[i].id == id;
            assert(t[i].id == id);
        }
        if id == x.id {
            assert(t[n].id == id);
        }
    }
    assert forall|id: Seq<char>| a.contains_key(id) implies a[id] == b[id] by {
        let i = choose|i: int| 0 <= i < t.len() && t[i].id == id;
        lema_busqueda(t, i);
        if i < n {
            lema_busqueda(s, i);
        }
    }
    assert(a =~= b);
}

proof fn lema_eliminacion(s: Seq<DocumentView>, k: int)
    requires
        ids_distintos(s),
        0 <= k < s.len(),
    ensures
        ids_distintos(s.remove(k)),
        mapa_de(s.remove(k)) == mapa_de(s).remove(s[k].id),
{
    let t = s.remove(k);
    let id0 = s[k].id;
    assert forall|i: int| 0 <= i < t.len() implies #[trigger] t[i] == (if i < k { s[i] } else { s[i + 1] }) by {}
    assert(ids_distintos(t)) by {
        assert forall|i: int, j: int| 0 <= i < t.len() && 0 <= j < t.len() && i != j implies #[trigger] t[i].id != #[trigger] t[j].id by {
            let si = if i < k { i } else { i + 1 };
            let sj = if j < k { j } else { j + 1 };
            assert(t[i] == s[si]);
            assert(t[j] == s[sj]);
            assert(s[si].id != s[sj].id);
        }
    }
    let a = mapa_de(t);
    let b = mapa_de(s).remove(id0);
    assert forall|id: Seq<char>| a.contains_key(id) <==> b.contains_key(id) by {
        if a.contains_key(id) {
            let i = choose|i: int| 0 <= i < t.len() && t[i].id == id;
            let si = if i < k { i } else { i + 1 };
            assert(t[i] == s[si]);
            assert(s[si].id != id0);
        }
        if b.contains_key(id) {
            let i = choose|i: int| 0 <= i < s.len() && s[i].id == id;
            assert(i != k);
            let ti = if i < k { i } else { i - 1 };
            assert(t[ti] == s[i]);
        }
    }
    assert forall|id: Seq<char>| a.contains_key(id) implies a[id] == b[id] by {
        let i = choose|i: int| 0 <= i < t.len() && t[i].id == id;
        let si = if i < k { i } else { i + 1 };
        assert(t[i] == s[si]);
        lema_busqueda(t, i);
        lema_busqueda(s, si);
    }
    assert(a =~= b);
}

/// `v` is the sublist of `s` at the increasing positions `idx`, holds only documents
/// satisfying `pred`, and misses none of the first `k` documents of `s` that satisfy it.
pub open spec fn seleccion_parcial(
    s: Seq<DocumentView>,
    v: Seq<DocumentView>,
    idx: Seq<int>,
    k: int,
    pred: spec_fn(DocumentView) -> bool,
) -> bool {
    &&& 0 <= k <= s.len()
    &&& idx.len() == v.len()
    &&& forall|j: int| 0 <= j < v.len() ==> 0 <= #[trigger] idx[j] < k && v[j] == s[idx[j]] && pred(v[j])
    &&& forall|a: int, b: int| 0 <= a < b < idx.len() ==> #[trigger] idx[a] < #[trigger] idx[b]
    &&& forall|i: int| 0 <= i < k && #[trigger] pred(s[i]) ==> exists|j: int| 0 <= j < idx.len() && idx[j] == i
}

proof fn lema_seleccion_paso(
    s: Seq<DocumentView>,
    v: Seq<DocumentView>,
    idx: Seq<int>,
    k: int,
    pred: spec_fn(DocumentView) -> bool,
    toma: bool,
)
    requires
        seleccion_parcial(s, v, idx, k, pred),
        k < s.len(),
        toma == pred(s[k]),
    ensures
        toma ==> seleccion_parcial(s, v.push(s[k]), idx.push(k), k + 1, pred),
        !toma ==> seleccion_parcial(s, v, idx, k + 1, pred),
{
    if toma {
        let v2 = v.push(s[k]);
        let idx2 = idx.push(k);
        assert forall|i: int| 0 <= i < k + 1 && #[trigger] pred(s[i]) implies exists|j: int| 0 <= j < idx2.len() && idx2[j] == i by {
            if i == k {
                assert(idx2[idx.len() as int] == k);
            } else {
                let j = choose|j: int| 0 <= j < idx.len() && idx[j] == i;
                assert(idx2[j] == i);
            }
        }
    } else {
        assert forall|i: int| 0 <= i < k + 1 && #[trigger] pred(s[i]) implies exists|j: int| 0 <= j < idx.len() && idx[j] == i by {
            assert(i != k);
        }
    }
}

proof fn lema_seleccion_final(
    s: Seq<DocumentView>,
    v: Seq<DocumentView>,
    idx: Seq<int>,
    pred: spec_fn(DocumentView) -> bool,
)
    requires
        ids_distintos(s),
        seleccion_parcial(s, v, idx, s.len() as int, pred),
    ensures
        es_seleccion(v, mapa_de(s), pred),
{
    let m = mapa_de(s);
    assert forall|j: int| 0 <= j < v.len() implies #[trigger] m.contains_key(v[j].id) && m[v[j].id] == v[j] && pred(v[j]) by {
        lema_busqueda(s, idx[j]);
    }
    assert forall|a: int, b: int| 0 <= a < v.len() && 0 <= b < v.len() && a != b implies #[trigger] v[a].id != #[trigger] v[b].id by {
        if a < b {
            assert(idx[a] < idx[b]);
        } else {
            assert(idx[b] < idx[a]);
        }
    }
    assert forall|id: Seq<char>| #[trigger] m.contains_key(id) && pred(m[id]) implies exists|j: int| 0 <= j < v.len() && #[trigger] v[j].id == id by {
        let i = choose|i: int| 0 <= i < s.len() && s[i].id == id;
        lema_busqueda(s, i);
        assert(pred(s[i]));
        let j = choose|j: int| 0 <= j < idx.len() && idx[j] == i;
        assert(v[j].id == id);
    }
}

/// In-memory document repository: the documents in a list without repeated identifiers.
pub struct InMemoryDocumentRepository {
    documents: Vec<Document>,
}

impl InMemoryDocumentRepository {
    #[verifier::type_invariant]
    closed spec fn ids_unicos(self) -> bool {
        ids_distintos(vistas_documentos(self.documents@))
    }

    /// An empty repository.
    pub fn new() -> (r: InMemoryDocumentRepository)
        ensures
            r.documentos() == Map::<Seq<char>, DocumentView>::empty(),
            r.siempre_responde(),
    {
        let r = InMemoryDocumentRepository { documents: Vec::new() };
        assert(mapa_de(vistas_documentos(r.documents@)) =~= Map::<Seq<char>, DocumentView>::empty());
        r
    }

    /// Where the document with the given identifier is stored, if anywhere.
    fn posicion(&self, id: &String) -> (r: Option<usize>)
        ensures
            match r {
                Some(k) => k < self.documents@.len() && self.documents@[k as int]@.id == id@,
                None => forall|i: int| 0 <= i < self.documents@.len() ==> self.documents@[i]@.id != id@,
            },
    {
        let mut k: usize = 0;
        while k < self.documents.len()
            invariant
                k <= self.documents@.len(),
                forall|i: int| 0 <= i < k ==> self.documents@[i]@.id != id@,
            decreases self.documents@.len() - k,
        {
            if self.documents[k].id.0 == *id {
                return Some(k);
            }
            k = k + 1;
        }
        None
    }
}

/// Whether some tag of the document, lowercased, equals the lowercased tag given.
fn tiene_etiqueta_en_minusculas(d: &Document, etiqueta_min: &String) -> (r: bool)
    ensures
        r == exists|i: int| 0 <= i < d@.tags.len() && #[trigger] minusculas(d@.tags[i]) == etiqueta_min@,
{
    let mut i: usize = 0;
    while i < d.tags.len()
        invariant
            i <= d.tags@.len(),
            forall|j: int| 0 <= j < i ==> minusculas(d@.tags[j]) != etiqueta_min@,
        decreases d.tags@.len() - i,
    {
        let t = a_minusculas(d.tags[i].as_str());
        if t == *etiqueta_min {
            assert(minusculas(d@.tags[i as int]) == etiqueta_min@);
            return true;
        }
        i = i + 1;
    }
    false
}

proof fn lema_orden_final(s: Seq<DocumentView>, o: Seq<DocumentView>)
    requires
        ids_distintos(s),
        ids_distintos(o),
        mas_recientes_primero(o),
        o.to_multiset() == s.to_multiset(),
    ensures
        es_orden_reciente(o, mapa_de(s)),
{
    let m = mapa_de(s);
    let pred = |d: DocumentView| true;
    assert forall|j: int| 0 <= j < o.len() implies #[trigger] m.contains_key(o[j].id) && m[o[j].id] == o[j] && pred(o[j]) by {
        assert(o.to_multiset().count(o[j]) > 0);
        assert(s.contains(o[j]));
        let i = choose|i: int| 0 <= i < s.len() && s[i] == o[j];
        lema_busqueda(s, i);
    }
    assert forall|id: Seq<char>| #[trigger] m.contains_key(id) && pred(m[id]) implies exists|j: int| 0 <= j < o.len() && #[trigger] o[j].id == id by {
        let i = choose|i: int| 0 <= i < s.len() && s[i].id == id;
        assert(s.to_multiset().count(s[i]) > 0);
        assert(o.contains(s[i]));
        let j = choose|j: int| 0 <= j < o.len() && o[j] == s[i];
        assert(o[j].id == id);
    }
}

impl InMemoryDocumentRepository {
    /// Every stored document, newest first.
    fn ordenar_recientes(&self) -> (r: Vec<Document>)
        ensures
            es_orden_reciente(vistas_documentos(r@), self.documentos()),
    {
        proof {
            use_type_invariant(self);
        }
        let ghost s = vistas_documentos(self.documents@);
        let n = self.documents.len();
        let mut ord: Vec<Document> = Vec::new();
        let mut k: usize = 0;
        assert(s.take(0) =~= Seq::<DocumentView>::empty());
        assert(vistas_documentos(ord@) =~= Seq::<DocumentView>::empty());
        while k < n
            invariant
                n == self.documents@.len(),
                k <= n,
                s == vistas_documentos(self.documents@),
                ids_distintos(s),
                vistas_documentos(ord@).to_multiset() == s.take(k as int).to_multiset(),
                mas_recientes_primero(vistas_documentos(ord@)),
                ids_distintos(vistas_documentos(ord@)),
            decreases n - k,
        {
            let ghost o = vistas_documentos(ord@);
            let copia = self.documents[k].clone();
            let ghost x = s[k as int];
            assert(copia@ == x);
            let mut p: usize = 0;
            while p < ord.len() && !ord[p].created_at.anterior_a(&copia.created_at)
                invariant
                    p <= ord@.len(),
                    o == vistas_documentos(ord@),
                    copia@ == x,
                    forall|q: int| 0 <= q < p ==> !es_antes(#[trigger] o[q].created_at, x.created_at),
                decreases ord@.len() - p,
            {
                p = p + 1;
            }
            let ghost o2 = o.insert(p as int, x);
            proof {
                o.insert_ensures(p as int, x);
                assert(s.take(k as int + 1) =~= s.take(k as int).push(x));
                assert(o2.to_multiset() == o.to_multiset().insert(x));
                assert forall|q: int| 0 <= q < o.len() implies #[trigger] o[q].id != x.id by {
                    assert(o.to_multiset().count(o[q]) > 0);
                    assert(s.take(k as int).contains(o[q]));
                    let i = choose|i: int| 0 <= i < s.take(k as int).len() && s.take(k as int)[i] == o[q];
                    assert(s[i] == o[q]);
                }
                assert forall|a: int, b: int| 0 <= a < o2.len() && 0 <= b < o2.len() && a != b implies #[trigger] o2[a].id != #[trigger] o2[b].id by {
                    let ia = if a < p { a } else if a == p { -1 } else { a - 1 };
                    let ib = if b < p { b } else if b == p { -1 } else { b - 1 };
                    if ia >= 0 && ib >= 0 {
                        assert(o2[a] == o[ia]);
                        assert(o2[b] == o[ib]);
                    } else if ia >= 0 {
                        assert(o2[a] == o[ia]);
                    } else {
                        assert(o2[b] == o[ib]);
                    }
                }
                assert forall|a: int, b: int| 0 <= a < b < o2.len() implies !es_antes(#[trigger] o2[a].created_at, #[trigger] o2[b].created_at) by {
                    if b < p {
                        assert(o2[a] == o[a] && o2[b] == o[b]);
                    } else if b == p {
                        assert(o2[a] == o[a]);
                    } else if a < p {
                        assert(o2[a] == o[a] && o2[b] == o[b - 1]);
                        assert(!es_antes(o[a].created_at, o[b - 1].created_at));
                    } else if a == p {
                        assert(o2[b] == o[b - 1]);
                        assert(es_antes(o[p as int].created_at, x.created_at));
                        if b - 1 > p {
                            assert(!es_antes(o[p as int].created_at, o[b - 1].created_at));
                        }
                    } else {
                        assert(o2[a] == o[a - 1] && o2[b] == o[b - 1]);
                    }
                }
            }
            ord.insert(p, copia);
            proof {
                assert(vistas_documentos(ord@) =~= o2);
            }
            k = k + 1;
        }
        proof {
            assert(s.take(n as int) =~= s);
            lema_orden_final(s, vistas_documentos(ord@));
        }
        ord
    }
}

impl Default for InMemoryDocumentRepository {
    fn default() -> (r: InMemoryDocumentRepository)
        ensures
            r.documentos() == Map::<Seq<char>, DocumentView>::empty(),
            r.siempre_responde(),
    {
        InMemoryDocumentRepository::new()
    }
}

impl DocumentRepository for InMemoryDocumentRepository {
    closed spec fn documentos(&self) -> Map<Seq<char>, DocumentView> {
        mapa_de(vistas_documentos(self.documents@))
    }

    open spec fn siempre_responde(&self) -> bool {
        true
    }

    // The store in memory never fails, so the errors of its operations are left open.
    closed spec fn error_lectura(&self, id: Seq<char>) -> DomainError {
        arbitrary()
    }

    closed spec fn error_escritura(&self, d: DocumentView) -> DomainError {
        arbitrary()
    }

    closed spec fn error_eliminacion(&self, id: Seq<char>) -> DomainError {
        arbitrary()
    }

    closed spec fn error_listado(&self, limit: u32, offset: u32) -> DomainError {
        arbitrary()
    }

    closed spec fn error_busqueda(&self, consulta: Seq<char>, por_titulo: bool) -> DomainError {
        arbitrary()
    }

    fn save(&mut self, document: &Document) -> (r: Result<(), DomainError>) {
        proof {
            use_type_invariant(&*self);
        }
        let ghost s = vistas_documentos(self.documents@);
        let copia = document.clone();
        let posicion = self.posicion(&document.id.0);
        let mut docs: Vec<Document> = Vec::new();
        std::mem::swap(&mut docs, &mut self.documents);
        match posicion {
            Some(k) => {
                proof {
                    lema_reemplazo(s, k as int, document@);
                    assert(vistas_documentos(docs@.update(k as int, copia)) =~= s.update(k as int, document@));
                }
                docs.set(k, copia);
            },
            None => {
                proof {
                    lema_agregado(s, document@);
                    assert(vistas_documentos(docs@.push(copia)) =~= s.push(document@));
                }
                docs.push(copia);
            },
        }
        self.documents = docs;
        Ok(())
    }

    fn find_by_id(&self, id: &DocumentId) -> (r: Result<Option<Document>, DomainError>) {
        proof {
            use_type_invariant(self);
        }
        match self.posicion(&id.0) {
            Some(k) => {
                proof {
                    lema_busqueda(vistas_documentos(self.documents@), k as int);
                }
                Ok(Some(self.documents[k].clone()))
            },
            None => {
                proof {
                    lema_ausente(vistas_documentos(self.documents@), id.0@);
                }
                Ok(None)
            },
        }
    }

    fn find_all(&self, limit: u32, offset: u32) -> (r: Result<Vec<Document>, DomainError>) {
        let mut todos = self.ordenar_recientes();
        let ghost s = vistas_documentos(todos@);
        let inicio = offset as usize;
        let fin = (offset + limit) as usize;
        if inicio >= todos.len() {
            let vacio: Vec<Document> = Vec::new();
            assert(vistas_documentos(vacio@) =~= pagina(s, offset as int, limit as int));
            return Ok(vacio);
        }
        let corte = if fin < todos.len() { fin } else { todos.len() };
        todos.truncate(corte);
        let pagina_docs = todos.split_off(inicio);
        proof {
            assert(vistas_documentos(pagina_docs@) =~= pagina(s, offset as int, limit as int));
        }
        Ok(pagina_docs)
    }

    fn delete(&mut self, id: &DocumentId) -> (r: Result<(), DomainError>) {
        proof {
            use_type_invariant(&*self);
        }
        let ghost s = vistas_documentos(self.documents@);
        match self.posicion(&id.0) {
            Some(k) => {
                let mut docs: Vec<Document> = Vec::new();
                std::mem::swap(&mut docs, &mut self.documents);
                proof {
                    lema_eliminacion(s, k as int);
                    assert(vistas_documentos(docs@.remove(k as int)) =~= s.remove(k as int));
                }
                docs.remove(k);
                self.documents = docs;
            },
            None => {
                proof {
                    lema_ausente(s, id.0@);
                    assert(mapa_de(s).remove(id.0@) =~= mapa_de(s));
                }
            },
        }
        Ok(())
    }

    fn find_by_title(&self, title: &str) -> (r: Result<Vec<Document>, DomainError>) {
        proof {
            use_type_invariant(self);
        }
        let ghost s = vistas_documentos(self.documents@);
        let ghost pred = |d: DocumentView| titulo_coincide(d, title@);
        let consulta_min = a_minusculas(title);
        let consulta = a_caracteres(consulta_min.as_str());
        let mut r: Vec<Document> = Vec::new();
        let ghost mut idx: Seq<int> = Seq::empty();
        let mut k: usize = 0;
        while k < self.documents.len()
            invariant
                s == vistas_documentos(self.documents@),
                consulta@ == minusculas(title@),
                pred == (|d: DocumentView| titulo_coincide(d, title@)),
                seleccion_parcial(s, vistas_documentos(r@), idx, k as int, pred),
            decreases self.documents@.len() - k,
        {
            let titulo_min = a_minusculas(self.documents[k].title.as_str());
            let titulo = a_caracteres(titulo_min.as_str());
            let toma = buscar_subcadena(&titulo, &consulta);
            proof {
                assert(toma == pred(s[k as int]));
                lema_seleccion_paso(s, vistas_documentos(r@), idx, k as int, pred, toma);
            }
            if toma {
                let copia = self.documents[k].clone();
                let ghost antes = r@;
                r.push(copia);
                proof {
                    assert(vistas_documentos(r@) =~= vistas_documentos(antes).push(s[k as int]));
                    idx = idx.push(k as int);
                }
            }
            k = k + 1;
        }
        proof {
            lema_seleccion_final(s, vistas_documentos(r@), idx, pred);
        }
        Ok(r)
    }

    fn find_by_tag(&self, tag: &str) -> (r: Result<Vec<Document>, DomainError>) {
        proof {
            use_type_invariant(self);
        }
        let ghost s = vistas_documentos(self.documents@);
        let ghost pred = |d: DocumentView| etiqueta_coincide(d, tag@);
        let etiqueta_min = a_minusculas(tag);
        let mut r: Vec<Document> = Vec::new();
        let ghost mut idx: Seq<int> = Seq::empty();
        let mut k: usize = 0;
        while k < self.documents.len()
            invariant
                s == vistas_documentos(self.documents@),
                etiqueta_min@ == minusculas(tag@),
                pred == (|d: DocumentView| etiqueta_coincide(d, tag@)),
                seleccion_parcial(s, vistas_documentos(r@), idx, k as int, pred),
            decreases self.documents@.len() - k,
        {
            let toma = tiene_etiqueta_en_minusculas(&self.documents[k], &etiqueta_min);
            proof {
                assert(toma == pred(s[k as int]));
                lema_seleccion_paso(s, vistas_documentos(r@), idx, k as int, pred, toma);
            }
            if toma {
                let copia = self.documents[k].clone();
                let ghost antes = r@;
                r.push(copia);
                proof {
                    assert(vistas_documentos(r@) =~= vistas_documentos(antes).push(s[k as int]));
                    idx = idx.push(k as int);
                }
            }
            k = k + 1;
        }
        proof {
            lema_seleccion_final(s, vistas_documentos(r@), idx, pred);
        }
        Ok(r)
    }
}

} // verus!
