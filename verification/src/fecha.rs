//! Reading the dates that an administrator writes when creating an election.
use vstd::prelude::*;

verus! {

/// The format of election dates: day, month, four-digit year, hour and minute,
/// such as `25-12-2024 18:30`.
pub const FORMATO_FECHA: &'static str = "%d-%m-%Y %H:%M";

/// What `chrono::NaiveDateTime::parse_from_str(texto, formato)` followed by
/// `.and_utc().timestamp_millis()` yields: `None` where the text does not match the
/// format or names no valid date, else the milliseconds since 1970-01-01 00:00 UTC.
pub uninterp spec fn milisegundos_de_fecha(texto: Seq<char>, formato: Seq<char>) -> Option<i64>;

/// The character is an ASCII decimal digit.
pub open spec fn es_cifra(c: char) -> bool {
    '0' <= c && c <= '9'
}

/// The value of an ASCII decimal digit.
pub open spec fn valor_cifra(c: char) -> int {
    c as int - 48
}

/// The number written by the two digits at positions `i` and `i + 1`.
pub open spec fn dos_cifras(t: Seq<char>, i: int) -> int {
    10 * valor_cifra(t[i]) + valor_cifra(t[i + 1])
}

/// The text is written exactly as `dd-mm-YYYY hh:mm`: sixteen characters, digits
/// where the format has fields, and its own separators between them.
pub open spec fn forma_de_fecha(t: Seq<char>) -> bool {
    &&& t.len() == 16
    &&& forall|i: int|
        0 <= i < 16 && i != 2 && i != 5 && i != 10 && i != 13 ==> es_cifra(#[trigger] t[i])
    &&& t[2] == '-'
    &&& t[5] == '-'
    &&& t[10] == ' '
    &&& t[13] == ':'
}

/// The day, the first field of the text.
pub open spec fn dia_de(t: Seq<char>) -> int {
    dos_cifras(t, 0)
}

/// The month, the second field of the text.
pub open spec fn mes_de(t: Seq<char>) -> int {
    dos_cifras(t, 3)
}

/// The four-digit year, the third field of the text.
pub open spec fn anio_de(t: Seq<char>) -> int {
    100 * dos_cifras(t, 6) + dos_cifras(t, 8)
}

/// The hour, the fourth field of the text.
pub open spec fn hora_de(t: Seq<char>) -> int {
    dos_cifras(t, 11)
}

/// The minute, the fifth field of the text.
pub open spec fn minuto_de(t: Seq<char>) -> int {
    dos_cifras(t, 14)
}

/// Leap years of the proleptic Gregorian calendar.
pub open spec fn es_bisiesto(y: int) -> bool {
    (y % 4 == 0 && y % 100 != 0) || y % 400 == 0
}

/// The number of days of a month.
pub open spec fn dias_del_mes(y: int, m: int) -> int {
    if m == 2 {
        if es_bisiesto(y) {
            29
        } else {
            28
        }
    } else if m == 4 || m == 6 || m == 9 || m == 11 {
        30
    } else {
        31
    }
}

/// The days of the months of year `y` before month `m`.
pub open spec fn dias_antes_del_mes(y: int, m: int) -> int
    decreases m,
{
    if m <= 1 {
        0
    } else {
        dias_antes_del_mes(y, m - 1) + dias_del_mes(y, m - 1)
    }
}

/// The leap years among the years `0 .. y`, for `y >= 0`.
pub open spec fn bisiestos_antes(y: int) -> int {
    (y + 3) / 4 - (y + 99) / 100 + (y + 399) / 400
}

/// Days from 1970-01-01 to day `d` of month `m` of year `y` (year 0 or later).
pub open spec fn dias_desde_1970(y: int, m: int, d: int) -> int {
    365 * y + bisiestos_antes(y) + dias_antes_del_mes(y, m) + (d - 1) - 719528
}

/// The text names an existing date and time of day.
pub open spec fn fecha_valida(t: Seq<char>) -> bool {
    &&& 1 <= mes_de(t) <= 12
    &&& 1 <= dia_de(t) <= dias_del_mes(anio_de(t), mes_de(t))
    &&& hora_de(t) < 24
    &&& minuto_de(t) < 60
}

/// Milliseconds since 1970-01-01 00:00 UTC of the instant that the text names: day
/// first, then month, year, hour and minute.
pub open spec fn instante_de(t: Seq<char>) -> int {
    dias_desde_1970(anio_de(t), mes_de(t), dia_de(t)) * 86400000 + hora_de(t) * 3600000
        + minuto_de(t) * 60000
}

/// Calls `chrono::NaiveDateTime::parse_from_str`, then reads the parsed date as UTC
/// milliseconds with `and_utc().timestamp_millis()`. Parsing is deterministic in the
/// text and the format (no time zone or locale is read), so the result is named by
/// `milisegundos_de_fecha`. What the documentation gives is stated too: with the
/// format `%d-%m-%Y %H:%M`, a text written exactly as `dd-mm-YYYY hh:mm` is read as
/// day (`%d`), month (`%m`), four-digit year (`%Y`), hour (`%H`) and minute (`%M`);
/// it is refused when these name no date or time of the proleptic Gregorian
/// calendar, and otherwise read as the milliseconds since 1970-01-01 00:00 UTC
/// (`timestamp_millis`). Other texts are left to the name.
#[verifier::external_body]
pub(crate) fn parsear_fecha(texto: &str, formato: &str) -> (r: Option<i64>)
    ensures
        r == milisegundos_de_fecha(texto@, formato@),
        formato@ == FORMATO_FECHA@ && forma_de_fecha(texto@) ==> (r is Some <==> fecha_valida(
            texto@,
        )),
        formato@ == FORMATO_FECHA@ && forma_de_fecha(texto@) ==> (r matches Some(m) ==> m
            == instante_de(texto@)),
{
    match chrono::NaiveDateTime::parse_from_str(texto, formato) {
        Ok(fecha) => Some(fecha.and_utc().timestamp_millis()),
        Err(_) => None,
    }
}

} // verus!
