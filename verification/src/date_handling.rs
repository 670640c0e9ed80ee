//! Dates of groups and cycles.
//!
//! A date is kept as text, `YYYY-MM-DD HH:MM:SS UTC`. The calendar itself is
//! chrono's: this module reads a date into the second it names, does the
//! arithmetic on seconds, and has the result written out again.

use crate::error::Error;
use vstd::prelude::*;

verus! {

/// The text form that dates are read in.
pub const FORMATO_FECHA: &'static str = "%Y-%m-%d %H:%M:%S UTC";

/// The seconds of one day.
pub const SEGUNDOS_POR_DIA: i64 = 86_400;

/// The nanoseconds of one second.
pub const NANOS_POR_SEGUNDO: u64 = 1_000_000_000;

/// The second, counted from the start of 1970, that chrono reads out of a date
/// written as [`FORMATO_FECHA`] says; `None` where chrono does not accept the text.
pub uninterp spec fn instante_de_fecha(fecha: Seq<char>) -> Option<i64>;

/// The text that chrono writes for the UTC date and time of a second counted
/// from the start of 1970; `None` where that second lies outside chrono's calendar.
pub uninterp spec fn texto_de_instante(instante: i64) -> Option<Seq<char>>;

/// Calls `chrono::NaiveDateTime::parse_from_str` with [`FORMATO_FECHA`] and,
/// where the text is accepted, `and_utc().timestamp()` on what was read.
/// Nothing is claimed beyond the name of the result: the same text always
/// gives the same answer.
#[verifier::external_body]
fn leer_fecha(fecha: &str) -> (instante: Option<i64>)
    ensures
        instante == instante_de_fecha(fecha@),
{
    match chrono::NaiveDateTime::parse_from_str(fecha, FORMATO_FECHA) {
        Ok(leida) => Some(leida.and_utc().timestamp()),
        Err(_) => None,
    }
}

/// Calls `chrono::DateTime::from_timestamp` with no nanoseconds and, where the
/// second is in range, `to_string` on the date. Nothing is claimed beyond the
/// name of the result: the same second always gives the same text.
#[verifier::external_body]
fn escribir_fecha(instante: i64) -> (texto: Option<String>)
    ensures
        match texto {
            Some(t) => texto_de_instante(instante) == Some(t@),
            None => texto_de_instante(instante) is None,
        },
{
    match chrono::DateTime::from_timestamp(instante, 0) {
        Some(fecha) => Some(fecha.to_string()),
        None => None,
    }
}

/// The first second of the day in which a clock reading in nanoseconds falls.
pub open spec fn inicio_del_dia(marca_de_tiempo: u64) -> i64 {
    let segundos = marca_de_tiempo as int / NANOS_POR_SEGUNDO as int;
    (segundos - segundos % SEGUNDOS_POR_DIA as int) as i64
}

/// The second that lies `dias` whole days after `instante`, where it can be
/// counted in 64 bits.
pub open spec fn instante_mas_dias(instante: i64, dias: int) -> Option<i64> {
    let destino = instante as int + dias * SEGUNDOS_POR_DIA as int;
    if i64::MIN as int <= destino <= i64::MAX as int {
        Some(destino as i64)
    } else {
        None
    }
}

/// The text of the date `dias` whole days after `instante`, where the
/// calendar reaches that far.
pub open spec fn fecha_en(instante: i64, dias: int) -> Option<Seq<char>> {
    match instante_mas_dias(instante, dias) {
        Some(destino) => texto_de_instante(destino),
        None => None,
    }
}

/// What [`agregar_dias`] answers for a date and a number of days.
pub open spec fn fecha_mas_dias(fecha: Seq<char>, dias: int) -> Result<Seq<char>, Error> {
    match instante_de_fecha(fecha) {
        None => Err(Error::FormatoFecha),
        Some(instante) => match fecha_en(instante, dias) {
            Some(texto) => Ok(texto),
            None => Err(Error::FechaFueraDeRango),
        },
    }
}

/// `b` names the day after `a`: some second is written as `a`, and the second
/// one day later as `b`.
pub open spec fn dia_siguiente(a: Seq<char>, b: Seq<char>) -> bool {
    exists|instante: i64| #[trigger]
        texto_de_instante(instante) == Some(a) && fecha_en(instante, 1) == Some(b)
}

/// Truncates a clock reading in nanoseconds to the first second of its day.
pub fn truncar_al_dia(marca_de_tiempo: u64) -> (instante: i64)
    ensures
        instante == inicio_del_dia(marca_de_tiempo),
        0 <= instante,
        instante % SEGUNDOS_POR_DIA == 0,
        instante <= (marca_de_tiempo / NANOS_POR_SEGUNDO) < instante + SEGUNDOS_POR_DIA,
{
    let segundos: u64 = marca_de_tiempo / NANOS_POR_SEGUNDO;
    let resto: u64 = segundos % 86_400;
    (segundos - resto) as i64
}

/// Moves a second by a number of whole days. `None` when the result cannot
/// be counted in 64 bits.
pub fn desplazar_instante(instante: i64, dias: i64) -> (destino: Option<i64>)
    ensures
        destino == instante_mas_dias(instante, dias as int),
{
    let amplio: i128 = instante as i128 + dias as i128 * 86_400;
    if amplio < i64::MIN as i128 || amplio > i64::MAX as i128 {
        None
    } else {
        Some(amplio as i64)
    }
}

/// The date of a second, as text.
///
/// Fails with `FechaFueraDeRango` exactly when the calendar does not reach
/// that second.
pub fn fecha_de_instante(instante: i64) -> (fecha: Result<String, Error>)
    ensures
        match fecha {
            Ok(texto) => texto_de_instante(instante) == Some(texto@),
            Err(e) => e == Error::FechaFueraDeRango && texto_de_instante(instante) is None,
        },
{
    match escribir_fecha(instante) {
        Some(texto) => Ok(texto),
        None => Err(Error::FechaFueraDeRango),
    }
}

/// The date `dias` whole days after the second `instante`, as text.
///
/// Fails with `FechaFueraDeRango` exactly when that day cannot be represented.
pub fn fecha_desplazada(instante: i64, dias: i64) -> (fecha: Result<String, Error>)
    ensures
        match fecha {
            Ok(texto) => fecha_en(instante, dias as int) == Some(texto@),
            Err(e) => e == Error::FechaFueraDeRango && fecha_en(instante, dias as int) is None,
        },
{
    match desplazar_instante(instante, dias) {
        Some(destino) => fecha_de_instante(destino),
        None => Err(Error::FechaFueraDeRango),
    }
}

/// The date `dias` whole days after the second `instante`, for a number of
/// days that is never negative.
///
/// Fails with `FechaFueraDeRango` exactly when that day cannot be represented.
pub fn fecha_tras_dias(instante: i64, dias: u64) -> (fecha: Result<String, Error>)
    ensures
        match fecha {
            Ok(texto) => fecha_en(instante, dias as int) == Some(texto@),
            Err(e) => e == Error::FechaFueraDeRango && fecha_en(instante, dias as int) is None,
        },
{
    if dias > 0x7fff_ffff_ffff_ffff {
        Err(Error::FechaFueraDeRango)
    } else {
        fecha_desplazada(instante, dias as i64)
    }
}

/// The second that a date names.
///
/// Fails with `FormatoFecha` exactly when the text is not written as
/// [`FORMATO_FECHA`] says.
pub fn instante_de(fecha: &str) -> (instante: Result<i64, Error>)
    ensures
        match instante {
            Ok(t) => instante_de_fecha(fecha@) == Some(t),
            Err(e) => e == Error::FormatoFecha && instante_de_fecha(fecha@) is None,
        },
{
    match leer_fecha(fecha) {
        Some(t) => Ok(t),
        None => Err(Error::FormatoFecha),
    }
}

/// Today's date: the day in which the clock reading `marca_de_tiempo`
/// (nanoseconds since the start of 1970) falls, at its first second.
pub fn calcular_inicio(marca_de_tiempo: u64) -> (hoy: Result<String, Error>)
    ensures
        match hoy {
            Ok(texto) => texto_de_instante(inicio_del_dia(marca_de_tiempo)) == Some(texto@),
            Err(e) => e == Error::FechaFueraDeRango && texto_de_instante(
                inicio_del_dia(marca_de_tiempo),
            ) is None,
        },
{
    fecha_de_instante(truncar_al_dia(marca_de_tiempo))
}

/// The date `dias` days after `fecha`, in the same text form.
///
/// Fails with `FormatoFecha` exactly when `fecha` is not written as
/// [`FORMATO_FECHA`] says, and otherwise with `FechaFueraDeRango` exactly when
/// the result cannot be represented.
pub fn agregar_dias(fecha: &str, dias: i64) -> (resultado: Result<String, Error>)
    ensures
        match resultado {
            Ok(texto) => fecha_mas_dias(fecha@, dias as int) == Ok::<Seq<char>, Error>(texto@),
            Err(e) => fecha_mas_dias(fecha@, dias as int) == Err::<Seq<char>, Error>(e),
        },
{
    match instante_de(fecha) {
        Err(e) => Err(e),
        Ok(instante) => fecha_desplazada(instante, dias),
    }
}

} // verus!
