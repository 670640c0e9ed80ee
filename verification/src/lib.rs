//! Rotating savings groups ("tandas"): a registry of groups, their members,
//! their contribution cycles and the history of what each member has paid.
//!
//! Every operation is a validated state transition on [`TandaDapp`]; the
//! contracts are stated over the mathematical view of the state.

use vstd::prelude::*;

pub mod busqueda;
pub mod dapp;
pub mod date_handling;
pub mod error;
pub mod leyes;
pub mod modelo;
pub mod periodos;
pub mod texto;
pub mod types;

pub use dapp::TandaDapp;
pub use error::Categoria;
pub use error::Error;
pub use types::HistorialCuenta;
pub use types::HistorialTanda;
pub use types::Pago;
pub use types::Periodo;
pub use types::Tanda;
pub use types::Transferencia;
pub use types::Usuario;

verus! {

/// The largest number of groups that one page of a listing holds.
pub const MAX_PAGE_SIZE: u64 = 10;

/// One NEAR in its smallest unit (10 to the power 24).
pub open spec fn spec_one_near() -> int {
    1_000_000_000_000_000_000_000_000int
}

/// One NEAR in its smallest unit: the deposit that creating a group asks for,
/// and the unit in which contributions are counted.
pub fn one_near() -> (unidad: u128)
    ensures
        unidad == spec_one_near(),
{
    1_000_000_000_000_000_000_000_000u128
}

} // verus!
