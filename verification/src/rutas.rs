//! The static routing table: which verb and path reach which operation, and
//! how the one integer path parameter is read.
use vstd::prelude::*;

use crate::Verbo;
use crate::texto::{
    comienza_con, contiene_caracter, es_entero, parsear_entero, textos_iguales, valor_entero,
};

verus! {

use vstd::string::StrSliceExecFns;

/// What a request may ask of one entity's subsystem.
#[derive(Clone, Copy, PartialEq, Eq, Structural, Debug)]
pub enum Accion {
    Listar,
    Crear,
    Insertar,
    Editar(i32),
    Actualizar,
    /// Reached by a plain navigational GET, as the original links require;
    /// a state-changing verb would be safer against accidental triggering.
    Borrar(i32),
    /// The path parameter was not an integer that fits the key type.
    ClaveInvalida,
}

/// The handler a request is dispatched to.
#[derive(Clone, Copy, PartialEq, Eq, Structural, Debug)]
pub enum Ruta {
    Inicio,
    Version,
    Farmacias(Accion),
    Medicamentos(Accion),
    NoEncontrada,
}

pub open spec fn es_prefijo(prefijo: Seq<char>, s: Seq<char>) -> bool {
    prefijo.len() <= s.len() && s.take(prefijo.len() as int) == prefijo
}

/// A path tail can stand for a key when it is one nonempty segment.
pub open spec fn segmento_valido(resto: Seq<char>) -> bool {
    resto.len() > 0 && !resto.contains('/')
}

/// The reading of an `{id}` segment, absent when it is not an integer that
/// fits the key type.
pub open spec fn lectura_clave(resto: Seq<char>) -> Option<i32> {
    if es_entero(resto) && i32::MIN <= valor_entero(resto) <= i32::MAX {
        Some(valor_entero(resto) as i32)
    } else {
        None
    }
}

pub open spec fn accion_con_clave(resto: Seq<char>, con_clave: spec_fn(i32) -> Accion) -> Accion {
    match lectura_clave(resto) {
        Some(id) => con_clave(id),
        None => Accion::ClaveInvalida,
    }
}

/// The routing table as one function of the verb and the path.
pub open spec fn ruta_de(verbo: Verbo, camino: Seq<char>) -> Ruta {
    if verbo == Verbo::Get && camino == "/"@ {
        Ruta::Inicio
    } else if verbo == Verbo::Get && camino == "/version"@ {
        Ruta::Version
    } else if verbo == Verbo::Get && camino == "/farmacias"@ {
        Ruta::Farmacias(Accion::Listar)
    } else if verbo == Verbo::Get && camino == "/farmacias/crear_farmacia"@ {
        Ruta::Farmacias(Accion::Crear)
    } else if verbo == Verbo::Post && camino == "/farmacias/insertar_farmacia"@ {
        Ruta::Farmacias(Accion::Insertar)
    } else if verbo == Verbo::Post && camino == "/farmacias/actualizar_farmacia"@ {
        Ruta::Farmacias(Accion::Actualizar)
    } else if verbo == Verbo::Get && es_prefijo("/farmacias/editar_farmacia/"@, camino) {
        let resto = camino.skip("/farmacias/editar_farmacia/"@.len() as int);
        if segmento_valido(resto) {
            Ruta::Farmacias(accion_con_clave(resto, |id: i32| Accion::Editar(id)))
        } else {
            Ruta::NoEncontrada
        }
    } else if verbo == Verbo::Get && es_prefijo("/farmacias/borrar_farmacia/"@, camino) {
        let resto = camino.skip("/farmacias/borrar_farmacia/"@.len() as int);
        if segmento_valido(resto) {
            Ruta::Farmacias(accion_con_clave(resto, |id: i32| Accion::Borrar(id)))
        } else {
            Ruta::NoEncontrada
        }
    } else if verbo == Verbo::Get && camino == "/medicamentos"@ {
        Ruta::Medicamentos(Accion::Listar)
    } else if verbo == Verbo::Get && camino == "/medicamentos/crear_medicamento"@ {
        Ruta::Medicamentos(Accion::Crear)
    } else if verbo == Verbo::Post && camino == "/medicamentos/insertar_medicamento"@ {
        Ruta::Medicamentos(Accion::Insertar)
    } else if verbo == Verbo::Post && camino == "/medicamentos/actualizar_medicamento"@ {
        Ruta::Medicamentos(Accion::Actualizar)
    } else if verbo == Verbo::Get && es_prefijo("/medicamentos/editar_medicamento/"@, camino) {
        let resto = camino.skip("/medicamentos/editar_medicamento/"@.len() as int);
        if segmento_valido(resto) {
            Ruta::Medicamentos(accion_con_clave(resto, |id: i32| Accion::Editar(id)))
        } else {
            Ruta::NoEncontrada
        }
    } else if verbo == Verbo::Get && es_prefijo("/medicamentos/borrar_medicamento/"@, camino) {
        let resto = camino.skip("/medicamentos/borrar_medicamento/"@.len() as int);
        if segmento_valido(resto) {
            Ruta::Medicamentos(accion_con_clave(resto, |id: i32| Accion::Borrar(id)))
        } else {
            Ruta::NoEncontrada
        }
    } else {
        Ruta::NoEncontrada
    }
}

/// Reads a `{id}` tail and builds the action; shared by the four
/// parameterized routes.
fn leer_clave(s: &str, desde: usize) -> (r: Option<Option<i32>>)
    requires
        desde <= s@.len(),
    ensures
        r is None <==> !segmento_valido(s@.skip(desde as int)),
        r matches Some(lectura) ==> lectura == lectura_clave(s@.skip(desde as int)),
{
    let largo = s.unicode_len();
    let resto = s.substring_char(desde, largo);
    proof {
        assert(resto@ =~= s@.skip(desde as int));
    }
    if resto.unicode_len() == 0 {
        return None;
    }
    if contiene_caracter(resto, '/') {
        return None;
    }
    Some(parsear_entero(resto))
}

/// The router: one dispatch of a verb and a path against the table.
pub fn enrutar(verbo: Verbo, camino: &str) -> (r: Ruta)
    ensures
        r == ruta_de(verbo, camino@),
{
    let es_get = match verbo {
        Verbo::Get => true,
        Verbo::Post => false,
    };
    if es_get && textos_iguales(camino, "/") {
        return Ruta::Inicio;
    }
    if es_get && textos_iguales(camino, "/version") {
        return Ruta::Version;
    }
    if es_get && textos_iguales(camino, "/farmacias") {
        return Ruta::Farmacias(Accion::Listar);
    }
    if es_get && textos_iguales(camino, "/farmacias/crear_farmacia") {
        return Ruta::Farmacias(Accion::Crear);
    }
    if !es_get && textos_iguales(camino, "/farmacias/insertar_farmacia") {
        return Ruta::Farmacias(Accion::Insertar);
    }
    if !es_get && textos_iguales(camino, "/farmacias/actualizar_farmacia") {
        return Ruta::Farmacias(Accion::Actualizar);
    }
    if es_get && comienza_con(camino, "/farmacias/editar_farmacia/") {
        let base = "/farmacias/editar_farmacia/";
        return match leer_clave(camino, base.unicode_len()) {
            None => Ruta::NoEncontrada,
            Some(None) => Ruta::Farmacias(Accion::ClaveInvalida),
            Some(Some(id)) => Ruta::Farmacias(Accion::Editar(id)),
        };
    }
    if es_get && comienza_con(camino, "/farmacias/borrar_farmacia/") {
        let base = "/farmacias/borrar_farmacia/";
        return match leer_clave(camino, base.unicode_len()) {
            None => Ruta::NoEncontrada,
            Some(None) => Ruta::Farmacias(Accion::ClaveInvalida),
            Some(Some(id)) => Ruta::Farmacias(Accion::Borrar(id)),
        };
    }
    if es_get && textos_iguales(camino, "/medicamentos") {
        return Ruta::Medicamentos(Accion::Listar);
    }
    if es_get && textos_iguales(camino, "/medicamentos/crear_medicamento") {
        return Ruta::Medicamentos(Accion::Crear);
    }
    if !es_get && textos_iguales(camino, "/medicamentos/insertar_medicamento") {
        return Ruta::Medicamentos(Accion::Insertar);
    }
    if !es_get && textos_iguales(camino, "/medicamentos/actualizar_medicamento") {
        return Ruta::Medicamentos(Accion::Actualizar);
    }
    if es_get && comienza_con(camino, "/medicamentos/editar_medicamento/") {
        let base = "/medicamentos/editar_medicamento/";
        return match leer_clave(camino, base.unicode_len()) {
            None => Ruta::NoEncontrada,
            Some(None) => Ruta::Medicamentos(Accion::ClaveInvalida),
            Some(Some(id)) => Ruta::Medicamentos(Accion::Editar(id)),
        };
    }
    if es_get && comienza_con(camino, "/medicamentos/borrar_medicamento/") {
        let base = "/medicamentos/borrar_medicamento/";
        return match leer_clave(camino, base.unicode_len()) {
            None => Ruta::NoEncontrada,
            Some(None) => Ruta::Medicamentos(Accion::ClaveInvalida),
            Some(Some(id)) => Ruta::Medicamentos(Accion::Borrar(id)),
        };
    }
    Ruta::NoEncontrada
}

} // verus!
