//! A verified core for a small pharmacy-and-medication inventory service:
//! the tables and their create/read/update/delete contract, the router, the
//! form binding rules, and the mapping from outcomes to HTTP responses.
pub mod almacen;
pub mod aplicacion;
pub mod farmacia;
pub mod formulario;
pub mod medicamento;
pub mod respuesta;
pub mod rutas;
pub mod tabla;
pub mod texto;

use vstd::prelude::*;

verus! {

/// The HTTP verbs that the router distinguishes.
#[derive(Clone, Copy, PartialEq, Eq, Structural, Debug)]
pub enum Verbo {
    Get,
    Post,
}

} // verus!
