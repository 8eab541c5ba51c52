//! The request handlers, one per route of each entity, and the application
//! that dispatches a parsed request to them. Each handler's contract fixes
//! the response and the table it leaves behind.
use vstd::prelude::*;

use crate::Verbo;
use crate::almacen::ErrorAlmacen;
use crate::farmacia::Farmacia;
use crate::formulario::{
    atar_farmacia, atar_medicamento, atar_nueva_farmacia, atar_nuevo_medicamento, falta_farmacia,
    falta_medicamento, falta_nueva_farmacia, falta_nuevo_medicamento, farmacia_de, medicamento_de,
    nueva_farmacia_de, nuevo_medicamento_de, telefono_de,
};
use crate::medicamento::Medicamento;
use crate::respuesta::{Pagina, Respuesta};
use crate::rutas::{Accion, Ruta, enrutar, ruta_de};
use crate::tabla::{Registro, Tabla, filas_reemplazadas, sin_clave};

verus! {

use vstd::string::StringExecFns;

// ---------------------------------------------------------------------------
// Landing pages
// ---------------------------------------------------------------------------

pub fn inicio() -> (r: Respuesta)
    ensures
        r == Respuesta::Vista(Pagina::Inicio),
{
    Respuesta::Vista(Pagina::Inicio)
}

pub fn version() -> (r: Respuesta)
    ensures
        r == Respuesta::Vista(Pagina::Version),
{
    Respuesta::Vista(Pagina::Version)
}

// ---------------------------------------------------------------------------
// Decisions over store outcomes. The HTTP layer runs the same decisions over
// the outcomes its own store reports, so they stand alone, verified for
// every outcome value.
// ---------------------------------------------------------------------------

/// The response any insert outcome maps to: a redirect to the collection on
/// success, a server error surfacing the failure's detail otherwise.
pub fn respuesta_de_insercion(resultado: &Result<(), ErrorAlmacen>, destino: &str) -> (r: Respuesta)
    ensures
        resultado is Ok ==> (r matches Respuesta::Redireccion(u) && u@ == destino@),
        resultado matches Err(e) ==> (r matches Respuesta::ErrorServidor(m) && m@
            == e.detalle_vista()),
{
    match resultado {
        Ok(_) => Respuesta::Redireccion(String::from_str(destino)),
        Err(falla) => Respuesta::ErrorServidor(falla.detalle()),
    }
}

/// The response any update or delete outcome maps to; the count of affected
/// rows does not change the answer.
pub fn respuesta_de_mutacion(resultado: &Result<u64, ErrorAlmacen>, destino: &str) -> (r: Respuesta)
    ensures
        resultado is Ok ==> (r matches Respuesta::Redireccion(u) && u@ == destino@),
        resultado matches Err(e) ==> (r matches Respuesta::ErrorServidor(m) && m@
            == e.detalle_vista()),
{
    match resultado {
        Ok(_) => Respuesta::Redireccion(String::from_str(destino)),
        Err(falla) => Respuesta::ErrorServidor(falla.detalle()),
    }
}

/// The response any pharmacy-listing outcome maps to: the list view of the
/// rows, or the store failure that ends the request.
pub fn respuesta_de_listado_farmacias(resultado: Result<Vec<Farmacia>, ErrorAlmacen>) -> (r:
    Respuesta)
    ensures
        resultado matches Ok(filas) ==> r == Respuesta::Vista(Pagina::ListaFarmacias(filas)),
        resultado matches Err(e) ==> (r matches Respuesta::ErrorServidor(m) && m@
            == e.detalle_vista()),
{
    match resultado {
        Ok(filas) => Respuesta::Vista(Pagina::ListaFarmacias(filas)),
        Err(falla) => Respuesta::ErrorServidor(falla.detalle()),
    }
}

/// The response any medication-listing outcome maps to.
pub fn respuesta_de_listado_medicamentos(resultado: Result<Vec<Medicamento>, ErrorAlmacen>) -> (r:
    Respuesta)
    ensures
        resultado matches Ok(filas) ==> r == Respuesta::Vista(Pagina::ListaMedicamentos(filas)),
        resultado matches Err(e) ==> (r matches Respuesta::ErrorServidor(m) && m@
            == e.detalle_vista()),
{
    match resultado {
        Ok(filas) => Respuesta::Vista(Pagina::ListaMedicamentos(filas)),
        Err(falla) => Respuesta::ErrorServidor(falla.detalle()),
    }
}

/// The response a single-pharmacy read maps to: the edit view of the record,
/// or the store failure that ends the request.
pub fn respuesta_de_lectura_farmacia(resultado: Result<Farmacia, ErrorAlmacen>) -> (r: Respuesta)
    ensures
        resultado matches Ok(registro) ==> r == Respuesta::Vista(Pagina::EditarFarmacia(registro)),
        resultado matches Err(e) ==> (r matches Respuesta::ErrorServidor(m) && m@
            == e.detalle_vista()),
{
    match resultado {
        Ok(registro) => Respuesta::Vista(Pagina::EditarFarmacia(registro)),
        Err(falla) => Respuesta::ErrorServidor(falla.detalle()),
    }
}

/// The response a single-medication read maps to.
pub fn respuesta_de_lectura_medicamento(resultado: Result<Medicamento, ErrorAlmacen>) -> (r:
    Respuesta)
    ensures
        resultado matches Ok(registro) ==> r == Respuesta::Vista(
            Pagina::EditarMedicamento(registro),
        ),
        resultado matches Err(e) ==> (r matches Respuesta::ErrorServidor(m) && m@
            == e.detalle_vista()),
{
    match resultado {
        Ok(registro) => Respuesta::Vista(Pagina::EditarMedicamento(registro)),
        Err(falla) => Respuesta::ErrorServidor(falla.detalle()),
    }
}

// ---------------------------------------------------------------------------
// Pharmacy handlers
// ---------------------------------------------------------------------------

/// What a pharmacy create submission must leave behind: a client error and
/// an untouched table, a new row and a redirect, or a surfaced store
/// failure when the key space is exhausted.
pub open spec fn insercion_farmacia_correcta(
    pre: Tabla<Farmacia>,
    post: Tabla<Farmacia>,
    f: Seq<(String, String)>,
    r: Respuesta,
) -> bool {
    match falta_nueva_farmacia(f) {
        Some(mensaje) => post == pre && (r matches Respuesta::ErrorCliente(e) && e@ == mensaje),
        None => if pre.siguiente_id < i32::MAX {
            &&& post.siguiente_id == pre.siguiente_id + 1
            &&& post.filas@.len() == pre.filas@.len() + 1
            &&& post.filas@.drop_last() == pre.filas@
            &&& post.filas@.last().clave() == pre.siguiente_id as int
            &&& post.filas@.last().nombre == nueva_farmacia_de(f).nombre
            &&& post.filas@.last().direccion == nueva_farmacia_de(f).direccion
            &&& post.filas@.last().telefono == telefono_de(f)
            &&& r matches Respuesta::Redireccion(destino) && destino@ == "/farmacias"@
        } else {
            post == pre && (r matches Respuesta::ErrorServidor(mensaje) && mensaje@
                == "no queda ninguna clave libre"@)
        },
    }
}

/// What a pharmacy edit view must show: the one row under the key, or the
/// store failure that ends the request when no row carries it.
pub open spec fn edicion_farmacia_correcta(tabla: Tabla<Farmacia>, id: int, r: Respuesta) -> bool {
    if tabla.contiene_clave(id) {
        r matches Respuesta::Vista(Pagina::EditarFarmacia(registro)) && registro.clave() == id
            && tabla.filas@.contains(registro)
    } else {
        r matches Respuesta::ErrorServidor(mensaje) && mensaje@
            == "no hay ninguna fila con la clave pedida"@
    }
}

/// What a pharmacy update submission must leave behind: a client error and
/// an untouched table, or the one matching row wholly replaced and a
/// redirect.
pub open spec fn actualizacion_farmacia_correcta(
    pre: Tabla<Farmacia>,
    post: Tabla<Farmacia>,
    f: Seq<(String, String)>,
    r: Respuesta,
) -> bool {
    match falta_farmacia(f) {
        Some(mensaje) => post == pre && (r matches Respuesta::ErrorCliente(e) && e@ == mensaje),
        None => {
            &&& post.filas@ == filas_reemplazadas(pre.filas@, farmacia_de(f))
            &&& post.siguiente_id == pre.siguiente_id
            &&& r matches Respuesta::Redireccion(destino) && destino@ == "/farmacias"@
        },
    }
}

/// What a pharmacy delete must leave behind: the rows without the key, in
/// their order, and a redirect — whether or not the key was present.
pub open spec fn borrado_farmacia_correcto(
    pre: Tabla<Farmacia>,
    post: Tabla<Farmacia>,
    id: int,
    r: Respuesta,
) -> bool {
    &&& post.filas@ == pre.filas@.filter(sin_clave::<Farmacia>(id))
    &&& post.siguiente_id == pre.siguiente_id
    &&& !post.contiene_clave(id)
    &&& r matches Respuesta::Redireccion(destino) && destino@ == "/farmacias"@
}

pub fn mostrar_farmacias(tabla: &Tabla<Farmacia>) -> (r: Respuesta)
    ensures
        r matches Respuesta::Vista(p) && p matches Pagina::ListaFarmacias(v) && v@ == tabla.filas@,
{
    Respuesta::Vista(Pagina::ListaFarmacias(tabla.listar()))
}

pub fn crear_farmacia() -> (r: Respuesta)
    ensures
        r == Respuesta::Vista(Pagina::CrearFarmacia),
{
    Respuesta::Vista(Pagina::CrearFarmacia)
}

pub fn insertar_farmacia(tabla: &mut Tabla<Farmacia>, formulario: &Vec<(String, String)>) -> (r:
    Respuesta)
    requires
        old(tabla).bien_formada(),
    ensures
        final(tabla).bien_formada(),
        insercion_farmacia_correcta(*old(tabla), *final(tabla), formulario@, r),
{
    match atar_nueva_farmacia(formulario) {
        Err(mensaje) => Respuesta::ErrorCliente(mensaje),
        Ok(entrada) => {
            let resultado = tabla.insertar(entrada);
            respuesta_de_insercion(&resultado, "/farmacias")
        },
    }
}

pub fn editar_farmacia(tabla: &Tabla<Farmacia>, id: i32) -> (r: Respuesta)
    requires
        tabla.bien_formada(),
    ensures
        edicion_farmacia_correcta(*tabla, id as int, r),
{
    respuesta_de_lectura_farmacia(tabla.obtener(id))
}

pub fn actualizar_farmacia(tabla: &mut Tabla<Farmacia>, formulario: &Vec<(String, String)>) -> (r:
    Respuesta)
    requires
        old(tabla).bien_formada(),
    ensures
        final(tabla).bien_formada(),
        actualizacion_farmacia_correcta(*old(tabla), *final(tabla), formulario@, r),
{
    match atar_farmacia(formulario) {
        Err(mensaje) => Respuesta::ErrorCliente(mensaje),
        Ok(registro) => {
            let resultado = tabla.actualizar(registro);
            respuesta_de_mutacion(&resultado, "/farmacias")
        },
    }
}

pub fn eliminar_farmacia(tabla: &mut Tabla<Farmacia>, id: i32) -> (r: Respuesta)
    requires
        old(tabla).bien_formada(),
    ensures
        final(tabla).bien_formada(),
        borrado_farmacia_correcto(*old(tabla), *final(tabla), id as int, r),
{
    let resultado = tabla.eliminar(id);
    respuesta_de_mutacion(&resultado, "/farmacias")
}

// ---------------------------------------------------------------------------
// Medication handlers
// ---------------------------------------------------------------------------

/// The medication counterpart of [`insercion_farmacia_correcta`].
pub open spec fn insercion_medicamento_correcta(
    pre: Tabla<Medicamento>,
    post: Tabla<Medicamento>,
    f: Seq<(String, String)>,
    r: Respuesta,
) -> bool {
    match falta_nuevo_medicamento(f) {
        Some(mensaje) => post == pre && (r matches Respuesta::ErrorCliente(e) && e@ == mensaje),
        None => if pre.siguiente_id < i32::MAX {
            &&& post.siguiente_id == pre.siguiente_id + 1
            &&& post.filas@.len() == pre.filas@.len() + 1
            &&& post.filas@.drop_last() == pre.filas@
            &&& post.filas@.last().clave() == pre.siguiente_id as int
            &&& post.filas@.last().nombre == nuevo_medicamento_de(f).nombre
            &&& post.filas@.last().principio_activo == nuevo_medicamento_de(f).principio_activo
            &&& post.filas@.last().presentacion == nuevo_medicamento_de(f).presentacion
            &&& post.filas@.last().precio == nuevo_medicamento_de(f).precio
            &&& r matches Respuesta::Redireccion(destino) && destino@ == "/medicamentos"@
        } else {
            post == pre && (r matches Respuesta::ErrorServidor(mensaje) && mensaje@
                == "no queda ninguna clave libre"@)
        },
    }
}

/// The medication counterpart of [`edicion_farmacia_correcta`].
pub open spec fn edicion_medicamento_correcta(
    tabla: Tabla<Medicamento>,
    id: int,
    r: Respuesta,
) -> bool {
    if tabla.contiene_clave(id) {
        r matches Respuesta::Vista(Pagina::EditarMedicamento(registro)) && registro.clave() == id
            && tabla.filas@.contains(registro)
    } else {
        r matches Respuesta::ErrorServidor(mensaje) && mensaje@
            == "no hay ninguna fila con la clave pedida"@
    }
}

/// The medication counterpart of [`actualizacion_farmacia_correcta`].
pub open spec fn actualizacion_medicamento_correcta(
    pre: Tabla<Medicamento>,
    post: Tabla<Medicamento>,
    f: Seq<(String, String)>,
    r: Respuesta,
) -> bool {
    match falta_medicamento(f) {
        Some(mensaje) => post == pre && (r matches Respuesta::ErrorCliente(e) && e@ == mensaje),
        None => {
            &&& post.filas@ == filas_reemplazadas(pre.filas@, medicamento_de(f))
            &&& post.siguiente_id == pre.siguiente_id
            &&& r matches Respuesta::Redireccion(destino) && destino@ == "/medicamentos"@
        },
    }
}

/// The medication counterpart of [`borrado_farmacia_correcto`].
pub open spec fn borrado_medicamento_correcto(
    pre: Tabla<Medicamento>,
    post: Tabla<Medicamento>,
    id: int,
    r: Respuesta,
) -> bool {
    &&& post.filas@ == pre.filas@.filter(sin_clave::<Medicamento>(id))
    &&& post.siguiente_id == pre.siguiente_id
    &&& !post.contiene_clave(id)
    &&& r matches Respuesta::Redireccion(destino) && destino@ == "/medicamentos"@
}

pub fn mostrar_medicamentos(tabla: &Tabla<Medicamento>) -> (r: Respuesta)
    ensures
        r matches Respuesta::Vista(p) && p matches Pagina::ListaMedicamentos(v) && v@
            == tabla.filas@,
{
    Respuesta::Vista(Pagina::ListaMedicamentos(tabla.listar()))
}

pub fn crear_medicamento() -> (r: Respuesta)
    ensures
        r == Respuesta::Vista(Pagina::CrearMedicamento),
{
    Respuesta::Vista(Pagina::CrearMedicamento)
}

pub fn insertar_medicamento(
    tabla: &mut Tabla<Medicamento>,
    formulario: &Vec<(String, String)>,
) -> (r: Respuesta)
    requires
        old(tabla).bien_formada(),
    ensures
        final(tabla).bien_formada(),
        insercion_medicamento_correcta(*old(tabla), *final(tabla), formulario@, r),
{
    match atar_nuevo_medicamento(formulario) {
        Err(mensaje) => Respuesta::ErrorCliente(mensaje),
        Ok(entrada) => {
            let resultado = tabla.insertar(entrada);
            respuesta_de_insercion(&resultado, "/medicamentos")
        },
    }
}

pub fn editar_medicamento(tabla: &Tabla<Medicamento>, id: i32) -> (r: Respuesta)
    requires
        tabla.bien_formada(),
    ensures
        edicion_medicamento_correcta(*tabla, id as int, r),
{
    respuesta_de_lectura_medicamento(tabla.obtener(id))
}

pub fn actualizar_medicamento(
    tabla: &mut Tabla<Medicamento>,
    formulario: &Vec<(String, String)>,
) -> (r: Respuesta)
    requires
        old(tabla).bien_formada(),
    ensures
        final(tabla).bien_formada(),
        actualizacion_medicamento_correcta(*old(tabla), *final(tabla), formulario@, r),
{
    match atar_medicamento(formulario) {
        Err(mensaje) => Respuesta::ErrorCliente(mensaje),
        Ok(registro) => {
            let resultado = tabla.actualizar(registro);
            respuesta_de_mutacion(&resultado, "/medicamentos")
        },
    }
}

pub fn eliminar_medicamento(tabla: &mut Tabla<Medicamento>, id: i32) -> (r: Respuesta)
    requires
        old(tabla).bien_formada(),
    ensures
        final(tabla).bien_formada(),
        borrado_medicamento_correcto(*old(tabla), *final(tabla), id as int, r),
{
    let resultado = tabla.eliminar(id);
    respuesta_de_mutacion(&resultado, "/medicamentos")
}

// ---------------------------------------------------------------------------
// The application
// ---------------------------------------------------------------------------

/// Both entity tables behind one dispatcher.
pub struct Aplicacion {
    pub farmacias: Tabla<Farmacia>,
    pub medicamentos: Tabla<Medicamento>,
}

/// What one pharmacy action must do to the table and answer.
pub open spec fn atencion_farmacias(
    pre: Tabla<Farmacia>,
    post: Tabla<Farmacia>,
    accion: Accion,
    f: Seq<(String, String)>,
    r: Respuesta,
) -> bool {
    match accion {
        Accion::Listar => post == pre && (r matches Respuesta::Vista(p) && p matches
            Pagina::ListaFarmacias(v) && v@ == pre.filas@),
        Accion::Crear => post == pre && r == Respuesta::Vista(Pagina::CrearFarmacia),
        Accion::Insertar => insercion_farmacia_correcta(pre, post, f, r),
        Accion::Editar(id) => post == pre && edicion_farmacia_correcta(pre, id as int, r),
        Accion::Actualizar => actualizacion_farmacia_correcta(pre, post, f, r),
        Accion::Borrar(id) => borrado_farmacia_correcto(pre, post, id as int, r),
        Accion::ClaveInvalida => post == pre && (r matches Respuesta::ErrorCliente(m) && m@
            == "la clave del camino no es un numero entero"@),
    }
}

/// What one medication action must do to the table and answer.
pub open spec fn atencion_medicamentos(
    pre: Tabla<Medicamento>,
    post: Tabla<Medicamento>,
    accion: Accion,
    f: Seq<(String, String)>,
    r: Respuesta,
) -> bool {
    match accion {
        Accion::Listar => post == pre && (r matches Respuesta::Vista(p) && p matches
            Pagina::ListaMedicamentos(v) && v@ == pre.filas@),
        Accion::Crear => post == pre && r == Respuesta::Vista(Pagina::CrearMedicamento),
        Accion::Insertar => insercion_medicamento_correcta(pre, post, f, r),
        Accion::Editar(id) => post == pre && edicion_medicamento_correcta(pre, id as int, r),
        Accion::Actualizar => actualizacion_medicamento_correcta(pre, post, f, r),
        Accion::Borrar(id) => borrado_medicamento_correcto(pre, post, id as int, r),
        Accion::ClaveInvalida => post == pre && (r matches Respuesta::ErrorCliente(m) && m@
            == "la clave del camino no es un numero entero"@),
    }
}

/// The whole behavior of one handled request, as a function of the routed
/// verb and path, the submitted form, and the tables before the call.
pub open spec fn atencion_correcta(
    pre: Aplicacion,
    post: Aplicacion,
    verbo: Verbo,
    camino: Seq<char>,
    f: Seq<(String, String)>,
    r: Respuesta,
) -> bool {
    match ruta_de(verbo, camino) {
        Ruta::Inicio => post == pre && r == Respuesta::Vista(Pagina::Inicio),
        Ruta::Version => post == pre && r == Respuesta::Vista(Pagina::Version),
        Ruta::Farmacias(accion) => post.medicamentos == pre.medicamentos && atencion_farmacias(
            pre.farmacias,
            post.farmacias,
            accion,
            f,
            r,
        ),
        Ruta::Medicamentos(accion) => post.farmacias == pre.farmacias && atencion_medicamentos(
            pre.medicamentos,
            post.medicamentos,
            accion,
            f,
            r,
        ),
        Ruta::NoEncontrada => post == pre && r == Respuesta::NoEncontrada,
    }
}

/// Deleting the same pharmacy key twice answers the same way both times — a
/// redirect to the same location — and the record is already gone from the
/// table after the first call, which the second leaves untouched.
pub proof fn ley_borrado_idempotente_farmacia(
    pre: Tabla<Farmacia>,
    mid: Tabla<Farmacia>,
    post: Tabla<Farmacia>,
    id: int,
    r1: Respuesta,
    r2: Respuesta,
)
    requires
        borrado_farmacia_correcto(pre, mid, id, r1),
        borrado_farmacia_correcto(mid, post, id, r2),
    ensures
        !mid.contiene_clave(id),
        post.filas@ == mid.filas@,
        post.siguiente_id == mid.siguiente_id,
        r1.codigo_vista() == 303 && r2.codigo_vista() == 303,
        (r1 matches Respuesta::Redireccion(u1) && (r2 matches Respuesta::Redireccion(u2) && u1@
            == u2@)),
{
    let c1: Result<u64, ErrorAlmacen> = Ok(
        if pre.contiene_clave(id) {
            1u64
        } else {
            0u64
        },
    );
    let c2: Result<u64, ErrorAlmacen> = Ok(
        if mid.contiene_clave(id) {
            1u64
        } else {
            0u64
        },
    );
    crate::tabla::ley_borrado_idempotente(pre, mid, post, id, c1, c2);
}

/// The medication counterpart of [`ley_borrado_idempotente_farmacia`].
pub proof fn ley_borrado_idempotente_medicamento(
    pre: Tabla<Medicamento>,
    mid: Tabla<Medicamento>,
    post: Tabla<Medicamento>,
    id: int,
    r1: Respuesta,
    r2: Respuesta,
)
    requires
        borrado_medicamento_correcto(pre, mid, id, r1),
        borrado_medicamento_correcto(mid, post, id, r2),
    ensures
        !mid.contiene_clave(id),
        post.filas@ == mid.filas@,
        post.siguiente_id == mid.siguiente_id,
        r1.codigo_vista() == 303 && r2.codigo_vista() == 303,
        (r1 matches Respuesta::Redireccion(u1) && (r2 matches Respuesta::Redireccion(u2) && u1@
            == u2@)),
{
    let c1: Result<u64, ErrorAlmacen> = Ok(
        if pre.contiene_clave(id) {
            1u64
        } else {
            0u64
        },
    );
    let c2: Result<u64, ErrorAlmacen> = Ok(
        if mid.contiene_clave(id) {
            1u64
        } else {
            0u64
        },
    );
    crate::tabla::ley_borrado_idempotente(pre, mid, post, id, c1, c2);
}

impl Aplicacion {
    pub open spec fn bien_formada(&self) -> bool {
        self.farmacias.bien_formada() && self.medicamentos.bien_formada()
    }

    /// Two empty tables, with the stores about to assign the first key.
    pub fn nueva() -> (a: Self)
        ensures
            a.bien_formada(),
            a.farmacias.filas@.len() == 0,
            a.medicamentos.filas@.len() == 0,
            a.farmacias.siguiente_id == 1,
            a.medicamentos.siguiente_id == 1,
    {
        Aplicacion { farmacias: Tabla::nueva(), medicamentos: Tabla::nueva() }
    }

    /// Routes one request and runs its handler. The form pairs are read only
    /// by the two submission routes; every other route ignores them.
    pub fn manejar(&mut self, verbo: Verbo, camino: &str, formulario: &Vec<(String, String)>) -> (r:
        Respuesta)
        requires
            old(self).bien_formada(),
        ensures
            final(self).bien_formada(),
            atencion_correcta(*old(self), *final(self), verbo, camino@, formulario@, r),
    {
        let ruta = enrutar(verbo, camino);
        match ruta {
            Ruta::Inicio => inicio(),
            Ruta::Version => version(),
            Ruta::Farmacias(Accion::Listar) => mostrar_farmacias(&self.farmacias),
            Ruta::Farmacias(Accion::Crear) => crear_farmacia(),
            Ruta::Farmacias(Accion::Insertar) => insertar_farmacia(&mut self.farmacias, formulario),
            Ruta::Farmacias(Accion::Editar(id)) => editar_farmacia(&self.farmacias, id),
            Ruta::Farmacias(Accion::Actualizar) => actualizar_farmacia(
                &mut self.farmacias,
                formulario,
            ),
            Ruta::Farmacias(Accion::Borrar(id)) => eliminar_farmacia(&mut self.farmacias, id),
            Ruta::Farmacias(Accion::ClaveInvalida) => Respuesta::ErrorCliente(
                String::from_str("la clave del camino no es un numero entero"),
            ),
            Ruta::Medicamentos(Accion::Listar) => mostrar_medicamentos(&self.medicamentos),
            Ruta::Medicamentos(Accion::Crear) => crear_medicamento(),
            Ruta::Medicamentos(Accion::Insertar) => insertar_medicamento(
                &mut self.medicamentos,
                formulario,
            ),
            Ruta::Medicamentos(Accion::Editar(id)) => editar_medicamento(&self.medicamentos, id),
            Ruta::Medicamentos(Accion::Actualizar) => actualizar_medicamento(
                &mut self.medicamentos,
                formulario,
            ),
            Ruta::Medicamentos(Accion::Borrar(id)) => eliminar_medicamento(
                &mut self.medicamentos,
                id,
            ),
            Ruta::Medicamentos(Accion::ClaveInvalida) => Respuesta::ErrorCliente(
                String::from_str("la clave del camino no es un numero entero"),
            ),
            Ruta::NoEncontrada => Respuesta::NoEncontrada,
        }
    }
}

} // verus!
