//! Text primitives of the library: conversion between strings and characters,
//! Unicode whitespace, trimming, line splitting and substring search.

use vstd::prelude::*;

verus! {

/// Appends one character to a string.
///
/// Trusted: `String::push`; std documents that it appends the given char to the end
/// of the string, which is all the contract claims.
#[verifier::external_body]
fn agregar_caracter(s: &mut String, c: char)
    ensures
        final(s)@ == old(s)@.push(c),
{
    s.push(c);
}

/// The characters of a string, in order.
pub fn a_caracteres(s: &str) -> (v: Vec<char>)
    ensures
        v@ == s@,
{
    let mut v: Vec<char> = Vec::new();
    for c in it: s.chars()
        invariant
            it.seq() == s@,
            v@ == it.seq().take(it.index() as int),
    {
        proof {
            assert(it.seq().take(it.index() as int + 1) == it.seq().take(it.index() as int).push(c));
        }
        v.push(c);
    }
    assert(v@ == s@.take(s@.len() as int));
    v
}

/// The string made of the given characters, in order.
pub fn a_cadena(v: &[char]) -> (s: String)
    ensures
        s@ == v@,
{
    let mut s = String::new();
    let mut i: usize = 0;
    while i < v.len()
        invariant
            i <= v@.len(),
            s@ == v@.take(i as int),
        decreases v@.len() - i,
    {
        assert(v@.take(i as int + 1) == v@.take(i as int).push(v@[i as int]));
        agregar_caracter(&mut s, v[i]);
        i = i + 1;
    }
    assert(v@.take(v@.len() as int) == v@);
    s
}


/// Unicode `White_Space` property, the set that `char::is_whitespace` tests.
pub open spec fn es_espacio(c: char) -> bool {
    let u = c as u32;
    (0x09 <= u && u <= 0x0d) || u == 0x20 || u == 0x85 || u == 0xa0 || u == 0x1680
        || (0x2000 <= u && u <= 0x200a) || u == 0x2028 || u == 0x2029 || u == 0x202f
        || u == 0x205f || u == 0x3000
}

/// Whether a character is Unicode whitespace.
pub fn es_espacio_blanco(c: char) -> (r: bool)
    ensures
        r == es_espacio(c),
{
    let u = c as u32;
    (0x09 <= u && u <= 0x0d) || u == 0x20 || u == 0x85 || u == 0xa0 || u == 0x1680
        || (0x2000 <= u && u <= 0x200a) || u == 0x2028 || u == 0x2029 || u == 0x202f
        || u == 0x205f || u == 0x3000
}

/// `s` without its leading whitespace.
pub open spec fn sin_espacios_iniciales(s: Seq<char>) -> Seq<char>
    decreases s.len(),
{
    if s.len() > 0 && es_espacio(s[0]) {
        sin_espacios_iniciales(s.drop_first())
    } else {
        s
    }
}

/// `s` without its trailing whitespace.
pub open spec fn sin_espacios_finales(s: Seq<char>) -> Seq<char>
    decreases s.len(),
{
    if s.len() > 0 && es_espacio(s.last()) {
        sin_espacios_finales(s.drop_last())
    } else {
        s
    }
}

/// `s` without leading and trailing whitespace (what `str::trim` gives).
pub open spec fn recortado(s: Seq<char>) -> Seq<char> {
    sin_espacios_finales(sin_espacios_iniciales(s))
}

/// What `sin_espacios_iniciales` leaves is a suffix of `s` that does not start with
/// whitespace.
pub proof fn lema_sin_espacios_iniciales(s: Seq<char>)
    ensures
        sin_espacios_iniciales(s).len() <= s.len(),
        sin_espacios_iniciales(s) == s.subrange(s.len() - sin_espacios_iniciales(s).len(), s.len() as int),
        sin_espacios_iniciales(s).len() > 0 ==> !es_espacio(sin_espacios_iniciales(s)[0]),
    decreases s.len(),
{
    if s.len() > 0 && es_espacio(s[0]) {
        lema_sin_espacios_iniciales(s.drop_first());
        let t = sin_espacios_iniciales(s.drop_first());
        assert(s.drop_first().subrange(s.len() - 1 - t.len(), s.len() - 1) =~= s.subrange(s.len() - t.len(), s.len() as int));
    } else {
        assert(s.subrange(0, s.len() as int) =~= s);
    }
}

/// What `sin_espacios_finales` leaves is a prefix of `s` that does not end with
/// whitespace.
pub proof fn lema_sin_espacios_finales(s: Seq<char>)
    ensures
        sin_espacios_finales(s).len() <= s.len(),
        sin_espacios_finales(s) == s.subrange(0, sin_espacios_finales(s).len() as int),
        sin_espacios_finales(s).len() > 0 ==> !es_espacio(sin_espacios_finales(s).last()),
    decreases s.len(),
{
    if s.len() > 0 && es_espacio(s.last()) {
        lema_sin_espacios_finales(s.drop_last());
        let t = sin_espacios_finales(s.drop_last());
        assert(s.drop_last().subrange(0, t.len() as int) =~= s.subrange(0, t.len() as int));
    } else {
        assert(s.subrange(0, s.len() as int) =~= s);
    }
}

/// A trimmed text neither starts nor ends with whitespace, and trimming it again
/// changes nothing.
pub proof fn lema_recortado(s: Seq<char>)
    ensures
        recortado(s).len() > 0 ==> !es_espacio(recortado(s)[0]) && !es_espacio(recortado(s).last()),
        recortado(recortado(s)) == recortado(s),
{
    let t = sin_espacios_iniciales(s);
    lema_sin_espacios_iniciales(s);
    lema_sin_espacios_finales(t);
    let u = recortado(s);
    if u.len() > 0 {
        assert(u[0] == t[0]);
        assert(sin_espacios_iniciales(u) == u);
        assert(sin_espacios_finales(u) == u);
    } else {
        assert(sin_espacios_iniciales(u) == u);
        assert(sin_espacios_finales(u) == u);
    }
}

/// `s` without every leading occurrence of `c` (what `str::trim_start_matches(c)` gives).
pub open spec fn sin_prefijo_repetido(s: Seq<char>, c: char) -> Seq<char>
    decreases s.len(),
{
    if s.len() > 0 && s[0] == c {
        sin_prefijo_repetido(s.drop_first(), c)
    } else {
        s
    }
}

/// The characters of `v` from `a` up to `b`.
pub fn copiar_rango(v: &[char], a: usize, b: usize) -> (r: Vec<char>)
    requires
        a <= b <= v@.len(),
    ensures
        r@ == v@.subrange(a as int, b as int),
{
    let mut r: Vec<char> = Vec::new();
    let mut i: usize = a;
    while i < b
        invariant
            a <= i <= b <= v@.len(),
            r@ == v@.subrange(a as int, i as int),
        decreases b - i,
    {
        assert(v@.subrange(a as int, i as int + 1) == v@.subrange(a as int, i as int).push(v@[i as int]));
        r.push(v[i]);
        i = i + 1;
    }
    r
}

/// Trims leading and trailing Unicode whitespace.
pub fn recortar(v: &[char]) -> (r: Vec<char>)
    ensures
        r@ == recortado(v@),
{
    let n = v.len();
    let mut i: usize = 0;
    assert(v@.subrange(0, n as int) == v@);
    while i < n && es_espacio_blanco(v[i])
        invariant
            i <= n == v@.len(),
            sin_espacios_iniciales(v@) == sin_espacios_iniciales(v@.subrange(i as int, n as int)),
        decreases n - i,
    {
        assert(v@.subrange(i as int, n as int).drop_first() == v@.subrange(i as int + 1, n as int));
        i = i + 1;
    }
    assert(sin_espacios_iniciales(v@) == v@.subrange(i as int, n as int));
    let mut j: usize = n;
    while j > i && es_espacio_blanco(v[j - 1])
        invariant
            i <= j <= n == v@.len(),
            sin_espacios_iniciales(v@) == v@.subrange(i as int, n as int),
            recortado(v@) == sin_espacios_finales(v@.subrange(i as int, j as int)),
        decreases j - i,
    {
        assert(v@.subrange(i as int, j as int).drop_last() == v@.subrange(i as int, j as int - 1));
        j = j - 1;
    }
    copiar_rango(v, i, j)
}

/// Removes every leading occurrence of `c`.
pub fn quitar_prefijo_repetido(v: &[char], c: char) -> (r: Vec<char>)
    ensures
        r@ == sin_prefijo_repetido(v@, c),
{
    let n = v.len();
    let mut i: usize = 0;
    assert(v@.subrange(0, n as int) == v@);
    while i < n && v[i] == c
        invariant
            i <= n == v@.len(),
            sin_prefijo_repetido(v@, c) == sin_prefijo_repetido(v@.subrange(i as int, n as int), c),
        decreases n - i,
    {
        assert(v@.subrange(i as int, n as int).drop_first() == v@.subrange(i as int + 1, n as int));
        i = i + 1;
    }
    copiar_rango(v, i, n)
}


/// A line as `str::lines` yields it: a carriage return just before the line feed is dropped.
pub open spec fn sin_retorno_final(l: Seq<char>) -> Seq<char> {
    if l.len() > 0 && l.last() == '\r' {
        l.drop_last()
    } else {
        l
    }
}

/// The lines of `s`, given the characters `actual` already read of the current line:
/// lines end at `'\n'`; a final line without `'\n'` counts only when it is not empty.
pub open spec fn lineas_desde(s: Seq<char>, actual: Seq<char>) -> Seq<Seq<char>>
    decreases s.len(),
{
    if s.len() == 0 {
        if actual.len() == 0 {
            Seq::empty()
        } else {
            seq![actual]
        }
    } else if s[0] == '\n' {
        seq![sin_retorno_final(actual)] + lineas_desde(s.drop_first(), Seq::empty())
    } else {
        lineas_desde(s.drop_first(), actual.push(s[0]))
    }
}

/// The lines of `s`, as `str::lines` splits them.
pub open spec fn lineas(s: Seq<char>) -> Seq<Seq<char>> {
    lineas_desde(s, Seq::empty())
}

/// The character sequences held by a vector of character vectors.
pub open spec fn vistas(r: Seq<Vec<char>>) -> Seq<Seq<char>> {
    r.map_values(|l: Vec<char>| l@)
}

/// Splits text into lines as `str::lines` does.
pub fn dividir_lineas(v: &[char]) -> (r: Vec<Vec<char>>)
    ensures
        vistas(r@) == lineas(v@),
{
    let n = v.len();
    let mut r: Vec<Vec<char>> = Vec::new();
    let mut actual: Vec<char> = Vec::new();
    let mut i: usize = 0;
    assert(v@.subrange(0, n as int) == v@);
    while i < n
        invariant
            i <= n == v@.len(),
            lineas(v@) == vistas(r@) + lineas_desde(v@.subrange(i as int, n as int), actual@),
        decreases n - i,
    {
        let ghost resto = v@.subrange(i as int, n as int);
        assert(resto.drop_first() == v@.subrange(i as int + 1, n as int));
        if v[i] == '\n' {
            let mut linea = actual;
            let m = linea.len();
            if m > 0 && linea[m - 1] == '\r' {
                linea.pop();
            }
            proof {
                assert(linea@ == sin_retorno_final(actual@));
            }
            let ghost antes = vistas(r@);
            r.push(linea);
            assert(vistas(r@) =~= antes.push(sin_retorno_final(actual@)));
            actual = Vec::new();
            assert(actual@ == Seq::<char>::empty());
            assert(lineas(v@) == vistas(r@) + lineas_desde(resto.drop_first(), actual@));
        } else {
            actual.push(v[i]);
        }
        i = i + 1;
    }
    assert(v@.subrange(n as int, n as int) == Seq::<char>::empty());
    if actual.len() > 0 {
        let ghost antes = vistas(r@);
        let ghost ultima = actual@;
        r.push(actual);
        assert(vistas(r@) =~= antes.push(ultima));
        assert(antes + seq![ultima] == antes.push(ultima));
    } else {
        assert(vistas(r@) + Seq::<Seq<char>>::empty() == vistas(r@));
    }
    r
}


/// `aguja` occurs in `pajar` as a block of consecutive characters.
pub open spec fn contiene(pajar: Seq<char>, aguja: Seq<char>) -> bool {
    exists|i: int|
        0 <= i && i + aguja.len() <= pajar.len() && #[trigger] pajar.subrange(i, i + aguja.len())
            == aguja
}

/// Whether `aguja` occurs at position `i` of `pajar`.
fn coincide_en(pajar: &[char], aguja: &[char], i: usize) -> (r: bool)
    requires
        i + aguja@.len() <= pajar@.len(),
    ensures
        r == (pajar@.subrange(i as int, i + aguja@.len()) == aguja@),
{
    let m = aguja.len();
    let _n = pajar.len();
    let mut k: usize = 0;
    while k < m
        invariant
            k <= m == aguja@.len(),
            i + m <= pajar@.len() == _n,
            forall|t: int| 0 <= t < k ==> pajar@[i + t] == aguja@[t],
        decreases m - k,
    {
        if pajar[i + k] != aguja[k] {
            assert(pajar@.subrange(i as int, i + m)[k as int] != aguja@[k as int]);
            return false;
        }
        k = k + 1;
    }
    assert(pajar@.subrange(i as int, i + m) =~= aguja@);
    true
}

/// Substring search (what `str::contains` with a string pattern answers).
pub fn buscar_subcadena(pajar: &[char], aguja: &[char]) -> (r: bool)
    ensures
        r == contiene(pajar@, aguja@),
{
    let n = pajar.len();
    let m = aguja.len();
    if m > n {
        return false;
    }
    let ultimo = n - m;
    let mut i: usize = 0;
    while i < ultimo
        invariant
            i <= ultimo == n - m,
            m <= n,
            n == pajar@.len(),
            m == aguja@.len(),
            forall|j: int| 0 <= j < i ==> #[trigger] pajar@.subrange(j, j + m) != aguja@,
        decreases ultimo - i,
    {
        if coincide_en(pajar, aguja, i) {
            return true;
        }
        i = i + 1;
    }
    if coincide_en(pajar, aguja, ultimo) {
        return true;
    }
    assert forall|j: int| 0 <= j && j + aguja@.len() <= pajar@.len() implies #[trigger] pajar@.subrange(
        j,
        j + aguja@.len(),
    ) != aguja@ by {
        assert(j <= ultimo);
    }
    false
}

/// Every `'/'` of `s` replaced by `'_'` (what `replace('/', "_")` gives).
pub open spec fn barras_a_guiones(s: Seq<char>) -> Seq<char> {
    s.map_values(|c: char| if c == '/' { '_' } else { c })
}

/// Replaces every `'/'` by `'_'`.
pub fn reemplazar_barras(v: &[char]) -> (r: Vec<char>)
    ensures
        r@ == barras_a_guiones(v@),
{
    let mut r: Vec<char> = Vec::new();
    let mut i: usize = 0;
    while i < v.len()
        invariant
            i <= v@.len(),
            r@ == barras_a_guiones(v@.take(i as int)),
        decreases v@.len() - i,
    {
        let c = if v[i] == '/' { '_' } else { v[i] };
        assert(barras_a_guiones(v@.take(i as int + 1)) =~= barras_a_guiones(v@.take(i as int)).push(c));
        r.push(c);
        i = i + 1;
    }
    assert(v@.take(v@.len() as int) == v@);
    r
}

/// The part of `s` after its last `'/'`, or all of `s` when it has none
/// (what `split('/').last()` yields).
pub open spec fn ultimo_segmento(s: Seq<char>) -> Seq<char>
    decreases s.len(),
{
    if s.len() == 0 {
        s
    } else if s.last() == '/' {
        Seq::empty()
    } else {
        ultimo_segmento(s.drop_last()).push(s.last())
    }
}

/// The part after the last `'/'`.
pub fn segmento_final(v: &[char]) -> (r: Vec<char>)
    ensures
        r@ == ultimo_segmento(v@),
{
    let n = v.len();
    let mut j: usize = n;
    assert(v@.subrange(0, n as int) == v@);
    while j > 0 && v[j - 1] != '/'
        invariant
            j <= n == v@.len(),
            ultimo_segmento(v@) == ultimo_segmento(v@.subrange(0, j as int)) + v@.subrange(
                j as int,
                n as int,
            ),
        decreases j,
    {
        let ghost p = v@.subrange(0, j as int);
        assert(p.drop_last() == v@.subrange(0, j as int - 1));
        assert(v@.subrange(j as int - 1, n as int) == seq![p.last()] + v@.subrange(j as int, n as int));
        assert(ultimo_segmento(p) == ultimo_segmento(p.drop_last()).push(p.last()));
        assert(ultimo_segmento(p.drop_last()).push(p.last()) + v@.subrange(j as int, n as int)
            =~= ultimo_segmento(p.drop_last()) + v@.subrange(j as int - 1, n as int));
        j = j - 1;
    }
    assert(ultimo_segmento(v@.subrange(0, j as int)) == Seq::<char>::empty());
    assert(Seq::<char>::empty() + v@.subrange(j as int, n as int) == v@.subrange(j as int, n as int));
    copiar_rango(v, j, n)
}

/// `s` without the prefix `p` when it starts with it, else `s` (what
/// `strip_prefix(p).unwrap_or(s)` gives).
pub open spec fn sin_prefijo(s: Seq<char>, p: Seq<char>) -> Seq<char> {
    if p.len() <= s.len() && s.take(p.len() as int) == p {
        s.skip(p.len() as int)
    } else {
        s
    }
}

/// Removes the prefix `p` when `v` starts with it.
pub fn quitar_prefijo(v: &[char], p: &[char]) -> (r: Vec<char>)
    ensures
        r@ == sin_prefijo(v@, p@),
{
    let n = v.len();
    let m = p.len();
    if m <= n && coincide_en(v, p, 0) {
        assert(v@.subrange(0, m as int) == v@.take(m as int));
        copiar_rango(v, m, n)
    } else {
        assert(m <= n ==> v@.subrange(0, m as int) == v@.take(m as int));
        copiar_rango(v, 0, n)
    }
}

/// What `str::to_lowercase` gives for a character sequence.
pub uninterp spec fn minusculas(s: Seq<char>) -> Seq<char>;

/// Lowercases a string.
///
/// Trusted: `str::to_lowercase`. Its result follows Unicode case mapping tables
/// (with context rules such as final sigma) and depends on the text alone; the contract
/// only names it, and states nothing more of it.
#[verifier::external_body]
pub(crate) fn a_minusculas(s: &str) -> (r: String)
    ensures
        r@ == minusculas(s@),
{
    s.to_lowercase()
}


/// Whether two strings hold the same characters.
pub fn textos_iguales(a: &str, b: &str) -> (r: bool)
    ensures
        r == (a@ == b@),
{
    let x = a_caracteres(a);
    let y = a_caracteres(b);
    if x.len() != y.len() {
        return false;
    }
    let mut i: usize = 0;
    while i < x.len()
        invariant
            i <= x@.len() == y@.len(),
            x@ == a@,
            y@ == b@,
            forall|j: int| 0 <= j < i ==> x@[j] == y@[j],
        decreases x@.len() - i,
    {
        if x[i] != y[i] {
            return false;
        }
        i = i + 1;
    }
    assert(x@ =~= y@);
    true
}

/// The string `a` followed by `b`.
pub fn unir(a: &str, b: &str) -> (r: String)
    ensures
        r@ == a@ + b@,
{
    let mut r = String::from_str(a);
    r.append(b);
    r
}

/// The string `a`, then `b`, then `c`.
pub fn unir3(a: &str, b: &str, c: &str) -> (r: String)
    ensures
        r@ == a@ + b@ + c@,
{
    let mut r = String::from_str(a);
    r.append(b);
    r.append(c);
    r
}

} // verus!
