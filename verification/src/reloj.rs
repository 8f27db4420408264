//! Points in time and elapsed-time measurement.

use vstd::prelude::*;

verus! {

/// A UTC instant: whole seconds since the Unix epoch and the nanoseconds past that second.
/// Instants are ordered by seconds, then nanoseconds, as UTC date-times are.
#[derive(Debug, Clone, Copy, PartialEq, Eq, Structural)]
pub struct Instante {
    pub segundos: i64,
    pub nanos: u32,
}

/// `a` comes strictly before `b`.
pub open spec fn es_antes(a: Instante, b: Instante) -> bool {
    a.segundos < b.segundos || (a.segundos == b.segundos && a.nanos < b.nanos)
}

impl Instante {
    /// Whether `self` comes strictly before `otro`.
    pub fn anterior_a(&self, otro: &Instante) -> (r: bool)
        ensures
            r == es_antes(*self, *otro),
    {
        self.segundos < otro.segundos || (self.segundos == otro.segundos && self.nanos < otro.nanos)
    }
}

/// The current UTC time.
///
/// Trusted: `chrono::Utc::now`, read back through `timestamp` and `timestamp_subsec_nanos`.
/// The value depends on the clock; chrono builds it from a `Duration` since the epoch, so its
/// nanoseconds are below one second, which is all the contract claims. chrono panics
/// when the system clock reads a time before 1970; no argument can rule that out.
#[verifier::external_body]
pub(crate) fn ahora() -> (t: Instante)
    ensures
        t.nanos < 1_000_000_000,
{
    let t = chrono::Utc::now();
    Instante { segundos: t.timestamp(), nanos: t.timestamp_subsec_nanos() }
}

#[verifier::external_type_specification]
#[verifier::external_body]
pub struct ExInstant(std::time::Instant);

/// Starts a stopwatch.
///
/// Trusted: `std::time::Instant::now`; nothing is claimed of the value.
#[verifier::external_body]
pub(crate) fn iniciar_cronometro() -> std::time::Instant {
    std::time::Instant::now()
}

/// Whole milliseconds elapsed since `inicio`.
///
/// Trusted: `Instant::elapsed`, read as milliseconds and narrowed to `u64`;
/// the value depends on the clock and nothing is claimed of it.
#[verifier::external_body]
pub(crate) fn milisegundos_desde(inicio: &std::time::Instant) -> u64 {
    inicio.elapsed().as_millis() as u64
}


/// A decimal digit.
pub open spec fn es_digito(c: char) -> bool {
    '0' as u32 <= c as u32 && c as u32 <= '9' as u32
}

/// Two decimal digits at positions `i` and `i + 1` of `s`, reading a number from `min`
/// to `max`.
pub open spec fn dos_digitos(s: Seq<char>, i: int, min: int, max: int) -> bool {
    &&& es_digito(s[i])
    &&& es_digito(s[i + 1])
    &&& min <= (s[i] as u32 - '0' as u32) * 10 + (s[i + 1] as u32 - '0' as u32) <= max
}

/// `s` is the RFC 3339 text of a UTC instant as chrono writes it, with `f` characters of
/// fractional seconds: the year (four digits, or a sign and at least four digits past
/// 9999), `-`, month, `-`, day, `T`, hours, `:`, minutes, `:`, seconds, then `.` and 3, 6
/// or 9 digits when `f` is not 0, then `+00:00`.
pub open spec fn forma_rfc3339_utc(s: Seq<char>, f: int) -> bool {
    let n = s.len() as int;
    let t = n - 6 - f - 9;
    &&& t >= 10
    &&& s.subrange(n - 6, n) == "+00:00"@
    &&& f > 0 ==> s[n - 6 - f] == '.' && forall|k: int| n - 6 - f < k < n - 6 ==> es_digito(#[trigger] s[k])
    &&& s[t] == 'T'
    &&& dos_digitos(s, t + 1, 0, 23)
    &&& s[t + 3] == ':'
    &&& dos_digitos(s, t + 4, 0, 59)
    &&& s[t + 6] == ':'
    &&& dos_digitos(s, t + 7, 0, 60)
    &&& s[t - 6] == '-'
    &&& dos_digitos(s, t - 5, 1, 12)
    &&& s[t - 3] == '-'
    &&& dos_digitos(s, t - 2, 1, 31)
    &&& (t - 6 == 4 && forall|k: int| 0 <= k < 4 ==> es_digito(#[trigger] s[k]))
        || (t - 6 >= 5 && (s[0] == '+' || s[0] == '-') && forall|k: int| 1 <= k < t - 6 ==> es_digito(#[trigger] s[k]))
}

/// `s` is the RFC 3339 text of a UTC instant as chrono writes it.
pub open spec fn es_rfc3339_utc(s: Seq<char>) -> bool {
    exists|f: int| (f == 0 || f == 4 || f == 7 || f == 10) && #[trigger] forma_rfc3339_utc(s, f)
}

/// The current UTC time as RFC 3339 text.
///
/// Trusted: `chrono::Utc::now` followed by `to_rfc3339`. The date and time depend on the
/// clock; what every outcome shares is the shape chrono's `write_rfc3339` gives it with
/// `SecondsFormat::AutoSi` and no `Z`: the year (signed past 9999), two-digit month, day,
/// hours, minutes and seconds in their ranges, fractional seconds of 0, 3, 6 or 9 digits,
/// and the offset `"+00:00"`. That shape is all the contract claims. As for `ahora`, chrono
/// panics on a clock before 1970.
#[verifier::external_body]
pub(crate) fn ahora_rfc3339() -> (r: String)
    ensures
        es_rfc3339_utc(r@),
{
    chrono::Utc::now().to_rfc3339()
}

} // verus!
