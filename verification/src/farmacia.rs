//! The pharmacy record: its full shape, its input shape, and how a table
//! holds it.
use vstd::prelude::*;

use crate::tabla::Registro;

verus! {

/// The full shape: every field of a persisted pharmacy row, key included.
#[derive(Debug)]
pub struct Farmacia {
    pub id: i32,
    pub nombre: String,
    pub direccion: String,
    pub telefono: Option<String>,
}

/// The input shape: what a create submission carries. The key is absent
/// because the store, never the client, assigns it.
#[derive(Debug)]
pub struct NuevaFarmacia {
    pub nombre: String,
    pub direccion: String,
    pub telefono: Option<String>,
}

impl Registro for Farmacia {
    type Entrada = NuevaFarmacia;

    open spec fn clave(&self) -> int {
        self.id as int
    }

    open spec fn valido(&self) -> bool {
        true
    }

    open spec fn entrada_valida(entrada: &NuevaFarmacia) -> bool {
        true
    }

    open spec fn corresponde(entrada: &NuevaFarmacia, registro: &Self) -> bool {
        &&& registro.nombre == entrada.nombre
        &&& registro.direccion == entrada.direccion
        &&& registro.telefono == entrada.telefono
    }

    fn identificador(&self) -> (r: i32) {
        self.id
    }

    fn duplicar(&self) -> (r: Self) {
        let telefono = match &self.telefono {
            Some(t) => Some(t.clone()),
            None => None,
        };
        Farmacia {
            id: self.id,
            nombre: self.nombre.clone(),
            direccion: self.direccion.clone(),
            telefono,
        }
    }

    fn crear(entrada: NuevaFarmacia, id: i32) -> (r: Self) {
        Farmacia {
            id,
            nombre: entrada.nombre,
            direccion: entrada.direccion,
            telefono: entrada.telefono,
        }
    }
}

} // verus!
