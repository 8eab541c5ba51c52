//! The failure type shared by every table operation.
use vstd::prelude::*;

verus! {

use vstd::string::StringExecFns;

/// A failure reported by the persistence layer. A lookup that found no row
/// where exactly one was expected is not distinguished from any other store
/// failure by the callers: both end the request.
#[derive(Debug)]
pub enum ErrorAlmacen {
    /// No row carries the requested key.
    FilaAusente,
    /// Any other failure, with its diagnostic text.
    Fallo(String),
}

impl ErrorAlmacen {
    pub open spec fn detalle_vista(&self) -> Seq<char> {
        match self {
            ErrorAlmacen::FilaAusente => "no hay ninguna fila con la clave pedida"@,
            ErrorAlmacen::Fallo(mensaje) => mensaje@,
        }
    }

    /// The diagnostic text that a failing request surfaces to the client.
    pub fn detalle(&self) -> (r: String)
        ensures
            r@ == self.detalle_vista(),
    {
        match self {
            ErrorAlmacen::FilaAusente => String::from_str(
                "no hay ninguna fila con la clave pedida",
            ),
            ErrorAlmacen::Fallo(mensaje) => mensaje.clone(),
        }
    }
}

} // verus!
