//! Why an operation was turned down.

use crate::types::Pago;
use vstd::prelude::*;

verus! {

/// The broad classes of failure. Each [`Error`] belongs to exactly one.
#[derive(Clone, Copy, Debug, PartialEq, Eq, Structural)]
pub enum Categoria {
    /// Malformed or out-of-range input: correct it and send it again.
    Validacion,
    /// The group is unknown.
    NoEncontrado,
    /// The requester is not the account that may do this.
    NoAutorizado,
    /// The group or the cycle is in the wrong phase for the operation.
    Estado,
    /// The value sent along does not match what the operation asks for.
    Pago,
    /// Nothing is left to pay.
    Agotado,
}

/// The precondition that an operation found violated. Nothing has changed
/// when one of these is returned.
#[derive(Clone, Copy, Debug, PartialEq, Eq, Structural)]
pub enum Error {
    /// Less than one NEAR came with the request to create a group.
    DepositoInsuficiente,
    /// The name of the group is empty.
    NombreVacio,
    /// The group has too few places.
    IntegrantesInsuficientes,
    /// The amount to save is zero.
    MontoInvalido,
    /// The length of a cycle is not an accepted number of days.
    PeriodoInvalido,
    /// A date is not written as `YYYY-MM-DD HH:MM:SS UTC`.
    FormatoFecha,
    /// A date falls outside what the calendar can represent.
    FechaFueraDeRango,
    /// No group has this key.
    TandaInexistente,
    /// The group has no cycle at this position.
    PeriodoInexistente,
    /// Only the creator of the group may do this.
    SinAutorizacion,
    /// The group is already active.
    YaActiva,
    /// Not every place of the group is taken yet.
    FaltanIntegrantes,
    /// Contributions were already made, so the group cannot be cancelled.
    EnProgreso,
    /// The account already belongs to the group.
    YaEsIntegrante,
    /// Every place of the group is taken.
    TandaLlena,
    /// The account does not belong to the group.
    NoEsIntegrante,
    /// The group has no cycles yet.
    PeriodosNoInicializados,
    /// The value sent is not exactly the amount of the group.
    MontoIncorrecto,
    /// The account has contributed to every cycle.
    PagosCompletados,
    /// The group has no cycle with this number.
    TurnoFueraDeRango,
    /// Another claim on this turn came first.
    TurnoTomado,
    /// Not every member has contributed to the cycle yet.
    PagosIncompletos,
    /// Nobody has claimed the turn of the cycle.
    SinUsuarioEnTurno,
    /// The cycle was already paid out.
    YaPagada,
}

impl Error {
    /// The class of failure that this error belongs to.
    pub open spec fn spec_categoria(self) -> Categoria {
        match self {
            Error::NombreVacio
            | Error::IntegrantesInsuficientes
            | Error::MontoInvalido
            | Error::PeriodoInvalido
            | Error::FormatoFecha
            | Error::FechaFueraDeRango
            | Error::TurnoFueraDeRango => Categoria::Validacion,
            Error::TandaInexistente | Error::PeriodoInexistente => Categoria::NoEncontrado,
            Error::SinAutorizacion => Categoria::NoAutorizado,
            Error::YaActiva
            | Error::FaltanIntegrantes
            | Error::EnProgreso
            | Error::YaEsIntegrante
            | Error::TandaLlena
            | Error::NoEsIntegrante
            | Error::PeriodosNoInicializados
            | Error::TurnoTomado
            | Error::PagosIncompletos
            | Error::SinUsuarioEnTurno
            | Error::YaPagada => Categoria::Estado,
            Error::DepositoInsuficiente | Error::MontoIncorrecto => Categoria::Pago,
            Error::PagosCompletados => Categoria::Agotado,
        }
    }

    /// The class of failure that this error belongs to.
    #[verifier::when_used_as_spec(spec_categoria)]
    pub fn categoria(self) -> (c: Categoria)
        ensures
            c == self.spec_categoria(),
    {
        match self {
            Error::NombreVacio
            | Error::IntegrantesInsuficientes
            | Error::MontoInvalido
            | Error::PeriodoInvalido
            | Error::FormatoFecha
            | Error::FechaFueraDeRango
            | Error::TurnoFueraDeRango => Categoria::Validacion,
            Error::TandaInexistente | Error::PeriodoInexistente => Categoria::NoEncontrado,
            Error::SinAutorizacion => Categoria::NoAutorizado,
            Error::YaActiva
            | Error::FaltanIntegrantes
            | Error::EnProgreso
            | Error::YaEsIntegrante
            | Error::TandaLlena
            | Error::NoEsIntegrante
            | Error::PeriodosNoInicializados
            | Error::TurnoTomado
            | Error::PagosIncompletos
            | Error::SinUsuarioEnTurno
            | Error::YaPagada => Categoria::Estado,
            Error::DepositoInsuficiente | Error::MontoIncorrecto => Categoria::Pago,
            Error::PagosCompletados => Categoria::Agotado,
        }
    }
}

} // verus!
