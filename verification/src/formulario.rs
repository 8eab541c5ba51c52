//! Binding of a form-encoded submission — a list of key-value pairs — to an
//! entity shape. A missing required field or an unreadable number is a
//! client error and never reaches the table.
use vstd::prelude::*;

use crate::farmacia::{Farmacia, NuevaFarmacia};
use crate::medicamento::{Medicamento, NuevoMedicamento};
use crate::texto::{
    es_decimal, es_decimal_valido, es_entero, parsear_entero, textos_iguales, valor_entero,
};

verus! {

use vstd::pervasive::arbitrary;
use vstd::string::StringExecFns;

pub open spec fn tiene_campo(f: Seq<(String, String)>, clave: Seq<char>) -> bool {
    exists|i: int| 0 <= i < f.len() && (#[trigger] f[i].0)@ == clave
}

/// The value of the first pair named `clave`; arbitrary when there is none.
pub open spec fn campo(f: Seq<(String, String)>, clave: Seq<char>) -> String
    decreases f.len(),
{
    if f.len() == 0 {
        arbitrary()
    } else if f[0].0@ == clave {
        f[0].1
    } else {
        campo(f.skip(1), clave)
    }
}

/// Looks a field up by name: the first matching pair's value.
pub fn valor_campo(formulario: &Vec<(String, String)>, clave: &str) -> (r: Option<String>)
    ensures
        r is Some <==> tiene_campo(formulario@, clave@),
        r matches Some(v) ==> v == campo(formulario@, clave@),
{
    let largo = formulario.len();
    let mut i: usize = 0;
    proof {
        assert(formulario@.skip(0) =~= formulario@);
    }
    while i < largo
        invariant
            largo == formulario@.len(),
            i <= largo,
            forall|j: int| 0 <= j < i ==> (#[trigger] formulario@[j].0)@ != clave@,
            campo(formulario@, clave@) == campo(formulario@.skip(i as int), clave@),
        decreases largo - i,
    {
        let par = &formulario[i];
        if textos_iguales(par.0.as_str(), clave) {
            proof {
                assert(formulario@.skip(i as int)[0] == formulario@[i as int]);
            }
            return Some(par.1.clone());
        }
        proof {
            assert(formulario@.skip(i as int)[0] == formulario@[i as int]);
            assert(formulario@.skip(i as int).skip(1) =~= formulario@.skip(i + 1 as int));
        }
        i = i + 1;
    }
    None
}

// ---------------------------------------------------------------------------
// Pharmacy shapes
// ---------------------------------------------------------------------------

/// Why a pharmacy create submission is rejected, if it is.
pub open spec fn falta_nueva_farmacia(f: Seq<(String, String)>) -> Option<Seq<char>> {
    if !tiene_campo(f, "nombre"@) {
        Some("falta el campo nombre"@)
    } else if !tiene_campo(f, "direccion"@) {
        Some("falta el campo direccion"@)
    } else {
        None
    }
}

pub open spec fn telefono_de(f: Seq<(String, String)>) -> Option<String> {
    if tiene_campo(f, "telefono"@) {
        Some(campo(f, "telefono"@))
    } else {
        None
    }
}

pub open spec fn nueva_farmacia_de(f: Seq<(String, String)>) -> NuevaFarmacia {
    NuevaFarmacia {
        nombre: campo(f, "nombre"@),
        direccion: campo(f, "direccion"@),
        telefono: telefono_de(f),
    }
}

/// Binds a create submission: both required fields must be present; the
/// optional telephone is absent exactly when the form holds no such field.
pub fn atar_nueva_farmacia(formulario: &Vec<(String, String)>) -> (r: Result<
    NuevaFarmacia,
    String,
>)
    ensures
        match falta_nueva_farmacia(formulario@) {
            Some(mensaje) => r matches Err(e) && e@ == mensaje,
            None => r matches Ok(n) && n == nueva_farmacia_de(formulario@),
        },
{
    let nombre = match valor_campo(formulario, "nombre") {
        Some(v) => v,
        None => {
            return Err(String::from_str("falta el campo nombre"));
        },
    };
    let direccion = match valor_campo(formulario, "direccion") {
        Some(v) => v,
        None => {
            return Err(String::from_str("falta el campo direccion"));
        },
    };
    let telefono = valor_campo(formulario, "telefono");
    Ok(NuevaFarmacia { nombre, direccion, telefono })
}

/// Why a pharmacy update submission is rejected, if it is.
pub open spec fn falta_farmacia(f: Seq<(String, String)>) -> Option<Seq<char>> {
    if !tiene_campo(f, "id"@) {
        Some("falta el campo id"@)
    } else if !(es_entero(campo(f, "id"@)@) && i32::MIN <= valor_entero(campo(f, "id"@)@)
        <= i32::MAX) {
        Some("el campo id no es un numero entero"@)
    } else if !tiene_campo(f, "nombre"@) {
        Some("falta el campo nombre"@)
    } else if !tiene_campo(f, "direccion"@) {
        Some("falta el campo direccion"@)
    } else {
        None
    }
}

pub open spec fn farmacia_de(f: Seq<(String, String)>) -> Farmacia {
    Farmacia {
        id: valor_entero(campo(f, "id"@)@) as i32,
        nombre: campo(f, "nombre"@),
        direccion: campo(f, "direccion"@),
        telefono: telefono_de(f),
    }
}

/// Binds an update submission: the full shape, key included.
pub fn atar_farmacia(formulario: &Vec<(String, String)>) -> (r: Result<Farmacia, String>)
    ensures
        match falta_farmacia(formulario@) {
            Some(mensaje) => r matches Err(e) && e@ == mensaje,
            None => r matches Ok(registro) && registro == farmacia_de(formulario@),
        },
{
    let texto_id = match valor_campo(formulario, "id") {
        Some(v) => v,
        None => {
            return Err(String::from_str("falta el campo id"));
        },
    };
    let id = match parsear_entero(texto_id.as_str()) {
        Some(n) => n,
        None => {
            return Err(String::from_str("el campo id no es un numero entero"));
        },
    };
    let nombre = match valor_campo(formulario, "nombre") {
        Some(v) => v,
        None => {
            return Err(String::from_str("falta el campo nombre"));
        },
    };
    let direccion = match valor_campo(formulario, "direccion") {
        Some(v) => v,
        None => {
            return Err(String::from_str("falta el campo direccion"));
        },
    };
    let telefono = valor_campo(formulario, "telefono");
    Ok(Farmacia { id, nombre, direccion, telefono })
}

// ---------------------------------------------------------------------------
// Medication shapes
// ---------------------------------------------------------------------------

/// Why a medication create submission is rejected, if it is.
pub open spec fn falta_nuevo_medicamento(f: Seq<(String, String)>) -> Option<Seq<char>> {
    if !tiene_campo(f, "nombre"@) {
        Some("falta el campo nombre"@)
    } else if !tiene_campo(f, "principio_activo"@) {
        Some("falta el campo principio_activo"@)
    } else if !tiene_campo(f, "presentacion"@) {
        Some("falta el campo presentacion"@)
    } else if !tiene_campo(f, "precio"@) {
        Some("falta el campo precio"@)
    } else if !es_decimal(campo(f, "precio"@)@) {
        Some("el campo precio no es un numero decimal"@)
    } else {
        None
    }
}

pub open spec fn nuevo_medicamento_de(f: Seq<(String, String)>) -> NuevoMedicamento {
    NuevoMedicamento {
        nombre: campo(f, "nombre"@),
        principio_activo: campo(f, "principio_activo"@),
        presentacion: campo(f, "presentacion"@),
        precio: campo(f, "precio"@),
    }
}

/// Binds a create submission: all four fields must be present and the price
/// must read as a decimal number.
pub fn atar_nuevo_medicamento(formulario: &Vec<(String, String)>) -> (r: Result<
    NuevoMedicamento,
    String,
>)
    ensures
        match falta_nuevo_medicamento(formulario@) {
            Some(mensaje) => r matches Err(e) && e@ == mensaje,
            None => r matches Ok(n) && n == nuevo_medicamento_de(formulario@),
        },
{
    let nombre = match valor_campo(formulario, "nombre") {
        Some(v) => v,
        None => {
            return Err(String::from_str("falta el campo nombre"));
        },
    };
    let principio_activo = match valor_campo(formulario, "principio_activo") {
        Some(v) => v,
        None => {
            return Err(String::from_str("falta el campo principio_activo"));
        },
    };
    let presentacion = match valor_campo(formulario, "presentacion") {
        Some(v) => v,
        None => {
            return Err(String::from_str("falta el campo presentacion"));
        },
    };
    let precio = match valor_campo(formulario, "precio") {
        Some(v) => v,
        None => {
            return Err(String::from_str("falta el campo precio"));
        },
    };
    if !es_decimal_valido(precio.as_str()) {
        return Err(String::from_str("el campo precio no es un numero decimal"));
    }
    Ok(NuevoMedicamento { nombre, principio_activo, presentacion, precio })
}

/// Why a medication update submission is rejected, if it is.
pub open spec fn falta_medicamento(f: Seq<(String, String)>) -> Option<Seq<char>> {
    if !tiene_campo(f, "id"@) {
        Some("falta el campo id"@)
    } else if !(es_entero(campo(f, "id"@)@) && i32::MIN <= valor_entero(campo(f, "id"@)@)
        <= i32::MAX) {
        Some("el campo id no es un numero entero"@)
    } else {
        falta_nuevo_medicamento(f)
    }
}

pub open spec fn medicamento_de(f: Seq<(String, String)>) -> Medicamento {
    Medicamento {
        id: valor_entero(campo(f, "id"@)@) as i32,
        nombre: campo(f, "nombre"@),
        principio_activo: campo(f, "principio_activo"@),
        presentacion: campo(f, "presentacion"@),
        precio: campo(f, "precio"@),
    }
}

/// Binds an update submission: the full shape, key included.
pub fn atar_medicamento(formulario: &Vec<(String, String)>) -> (r: Result<Medicamento, String>)
    ensures
        match falta_medicamento(formulario@) {
            Some(mensaje) => r matches Err(e) && e@ == mensaje,
            None => r matches Ok(registro) && registro == medicamento_de(formulario@),
        },
{
    let texto_id = match valor_campo(formulario, "id") {
        Some(v) => v,
        None => {
            return Err(String::from_str("falta el campo id"));
        },
    };
    let id = match parsear_entero(texto_id.as_str()) {
        Some(n) => n,
        None => {
            return Err(String::from_str("el campo id no es un numero entero"));
        },
    };
    let resto = atar_nuevo_medicamento(formulario);
    match resto {
        Ok(entrada) => Ok(
            Medicamento {
                id,
                nombre: entrada.nombre,
                principio_activo: entrada.principio_activo,
                presentacion: entrada.presentacion,
                precio: entrada.precio,
            },
        ),
        Err(mensaje) => Err(mensaje),
    }
}

} // verus!
