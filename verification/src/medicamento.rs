//! The medication record: its full shape, its input shape, and how a table
//! holds it. The price travels as validated decimal text; only the store and
//! the views give it a numeric reading.
use vstd::prelude::*;

use crate::tabla::Registro;
use crate::texto::es_decimal;

verus! {

/// The full shape: every field of a persisted medication row, key included.
#[derive(Debug)]
pub struct Medicamento {
    pub id: i32,
    pub nombre: String,
    pub principio_activo: String,
    pub presentacion: String,
    pub precio: String,
}

/// The input shape: what a create submission carries, without the key.
#[derive(Debug)]
pub struct NuevoMedicamento {
    pub nombre: String,
    pub principio_activo: String,
    pub presentacion: String,
    pub precio: String,
}

impl Registro for Medicamento {
    type Entrada = NuevoMedicamento;

    open spec fn clave(&self) -> int {
        self.id as int
    }

    open spec fn valido(&self) -> bool {
        es_decimal(self.precio@)
    }

    open spec fn entrada_valida(entrada: &NuevoMedicamento) -> bool {
        es_decimal(entrada.precio@)
    }

    open spec fn corresponde(entrada: &NuevoMedicamento, registro: &Self) -> bool {
        &&& registro.nombre == entrada.nombre
        &&& registro.principio_activo == entrada.principio_activo
        &&& registro.presentacion == entrada.presentacion
        &&& registro.precio == entrada.precio
    }

    fn identificador(&self) -> (r: i32) {
        self.id
    }

    fn duplicar(&self) -> (r: Self) {
        Medicamento {
            id: self.id,
            nombre: self.nombre.clone(),
            principio_activo: self.principio_activo.clone(),
            presentacion: self.presentacion.clone(),
            precio: self.precio.clone(),
        }
    }

    fn crear(entrada: NuevoMedicamento, id: i32) -> (r: Self) {
        Medicamento {
            id,
            nombre: entrada.nombre,
            principio_activo: entrada.principio_activo,
            presentacion: entrada.presentacion,
            precio: entrada.precio,
        }
    }
}

} // verus!
