use botica::Verbo;
use botica::almacen::ErrorAlmacen;
use botica::aplicacion::{respuesta_de_insercion, respuesta_de_mutacion, Aplicacion};
use botica::respuesta::{Pagina, Respuesta};

fn formulario(pares: &[(&str, &str)]) -> Vec<(String, String)> {
    pares.iter().map(|(c, v)| (c.to_string(), v.to_string())).collect()
}

fn vacio() -> Vec<(String, String)> {
    Vec::new()
}

// E2E: a create submission redirects to the collection, and the following
// listing shows the submitted values under a generated key.
#[test]
fn alta_y_listado_de_medicamento() {
    let mut app = Aplicacion::nueva();
    let r = app.manejar(
        Verbo::Post,
        "/medicamentos/insertar_medicamento",
        &formulario(&[
            ("nombre", "Paracetamol"),
            ("principio_activo", "Paracetamol"),
            ("presentacion", "Tableta 500mg"),
            ("precio", "2.50"),
        ]),
    );
    assert_eq!(r.codigo_estado(), 303);
    match r {
        Respuesta::Redireccion(destino) => assert_eq!(destino, "/medicamentos"),
        _ => panic!("se esperaba una redireccion"),
    }
    let listado = app.manejar(Verbo::Get, "/medicamentos", &vacio());
    assert_eq!(listado.codigo_estado(), 200);
    match listado {
        Respuesta::Vista(Pagina::ListaMedicamentos(filas)) => {
            assert_eq!(filas.len(), 1);
            assert_eq!(filas[0].id, 1);
            assert_eq!(filas[0].nombre, "Paracetamol");
            assert_eq!(filas[0].principio_activo, "Paracetamol");
            assert_eq!(filas[0].presentacion, "Tableta 500mg");
            assert_eq!(filas[0].precio, "2.50");
        }
        _ => panic!("se esperaba la lista de medicamentos"),
    }
}

// E2E: editing a pharmacy that was never created fails the request with a
// server error, not a default record.
#[test]
fn edicion_de_farmacia_ausente() {
    let mut app = Aplicacion::nueva();
    let r = app.manejar(Verbo::Get, "/farmacias/editar_farmacia/9999", &vacio());
    assert_eq!(r.codigo_estado(), 500);
    assert!(matches!(r, Respuesta::ErrorServidor(_)));
}

#[test]
fn alta_edicion_y_borrado_de_farmacia() {
    let mut app = Aplicacion::nueva();
    let alta = app.manejar(
        Verbo::Post,
        "/farmacias/insertar_farmacia",
        &formulario(&[("nombre", "Central"), ("direccion", "Calle 1"), ("telefono", "555")]),
    );
    assert_eq!(alta.codigo_estado(), 303);
    let edicion = app.manejar(Verbo::Get, "/farmacias/editar_farmacia/1", &vacio());
    match edicion {
        Respuesta::Vista(Pagina::EditarFarmacia(registro)) => {
            assert_eq!(registro.id, 1);
            assert_eq!(registro.nombre, "Central");
            assert_eq!(registro.telefono, Some("555".to_string()));
        }
        _ => panic!("se esperaba el formulario de edicion"),
    }
    let borrado = app.manejar(Verbo::Get, "/farmacias/borrar_farmacia/1", &vacio());
    assert_eq!(borrado.codigo_estado(), 303);
    let segundo_borrado = app.manejar(Verbo::Get, "/farmacias/borrar_farmacia/1", &vacio());
    assert_eq!(segundo_borrado.codigo_estado(), 303);
    match app.manejar(Verbo::Get, "/farmacias", &vacio()) {
        Respuesta::Vista(Pagina::ListaFarmacias(filas)) => assert_eq!(filas.len(), 0),
        _ => panic!("se esperaba la lista de farmacias"),
    }
}

#[test]
fn actualizacion_reemplaza_el_telefono() {
    let mut app = Aplicacion::nueva();
    app.manejar(
        Verbo::Post,
        "/farmacias/insertar_farmacia",
        &formulario(&[("nombre", "A"), ("direccion", "X"), ("telefono", "555")]),
    );
    let r = app.manejar(
        Verbo::Post,
        "/farmacias/actualizar_farmacia",
        &formulario(&[("id", "1"), ("nombre", "A"), ("direccion", "X")]),
    );
    assert_eq!(r.codigo_estado(), 303);
    match app.manejar(Verbo::Get, "/farmacias/editar_farmacia/1", &vacio()) {
        Respuesta::Vista(Pagina::EditarFarmacia(registro)) => {
            assert_eq!(registro.telefono, None);
        }
        _ => panic!("se esperaba el formulario de edicion"),
    }
}

#[test]
fn formulario_incompleto_es_error_del_cliente() {
    let mut app = Aplicacion::nueva();
    let r = app.manejar(
        Verbo::Post,
        "/farmacias/insertar_farmacia",
        &formulario(&[("nombre", "Central")]),
    );
    assert_eq!(r.codigo_estado(), 400);
    match r {
        Respuesta::ErrorCliente(mensaje) => assert_eq!(mensaje, "falta el campo direccion"),
        _ => panic!("se esperaba un error del cliente"),
    }
}

#[test]
fn precio_ilegible_es_error_del_cliente() {
    let mut app = Aplicacion::nueva();
    let r = app.manejar(
        Verbo::Post,
        "/medicamentos/insertar_medicamento",
        &formulario(&[
            ("nombre", "Ibuprofeno"),
            ("principio_activo", "Ibuprofeno"),
            ("presentacion", "Capsula"),
            ("precio", "barato"),
        ]),
    );
    assert_eq!(r.codigo_estado(), 400);
    match r {
        Respuesta::ErrorCliente(mensaje) => {
            assert_eq!(mensaje, "el campo precio no es un numero decimal")
        }
        _ => panic!("se esperaba un error del cliente"),
    }
}

#[test]
fn clave_ilegible_es_error_del_cliente() {
    let mut app = Aplicacion::nueva();
    let r = app.manejar(Verbo::Get, "/farmacias/editar_farmacia/siete", &vacio());
    assert_eq!(r.codigo_estado(), 400);
}

#[test]
fn camino_desconocido_no_se_encuentra() {
    let mut app = Aplicacion::nueva();
    let r = app.manejar(Verbo::Get, "/inventario", &vacio());
    assert_eq!(r.codigo_estado(), 404);
    assert!(matches!(r, Respuesta::NoEncontrada));
}

#[test]
fn paginas_fijas() {
    let mut app = Aplicacion::nueva();
    match app.manejar(Verbo::Get, "/", &vacio()) {
        Respuesta::Vista(pagina) => {
            assert_eq!(pagina.plantilla(), "inicio.html");
            assert_eq!(pagina.clave_contexto(), "");
        }
        _ => panic!("se esperaba la pagina de inicio"),
    }
    match app.manejar(Verbo::Get, "/version", &vacio()) {
        Respuesta::Vista(pagina) => assert_eq!(pagina.plantilla(), "version.html"),
        _ => panic!("se esperaba la pagina de version"),
    }
    match app.manejar(Verbo::Get, "/farmacias", &vacio()) {
        Respuesta::Vista(pagina) => {
            assert_eq!(pagina.plantilla(), "farmacias/F-mostrar.html");
            assert_eq!(pagina.clave_contexto(), "farmacias");
        }
        _ => panic!("se esperaba la lista de farmacias"),
    }
    match app.manejar(Verbo::Get, "/medicamentos/crear_medicamento", &vacio()) {
        Respuesta::Vista(pagina) => assert_eq!(pagina.plantilla(), "medicamentos/M-crear.html"),
        _ => panic!("se esperaba el formulario de creacion"),
    }
}

#[test]
fn decisiones_sobre_resultados_del_almacen() {
    let exito = respuesta_de_mutacion(&Ok(1), "/farmacias");
    assert_eq!(exito.codigo_estado(), 303);
    match exito {
        Respuesta::Redireccion(destino) => assert_eq!(destino, "/farmacias"),
        _ => panic!("se esperaba una redireccion"),
    }
    let sin_filas = respuesta_de_mutacion(&Ok(0), "/farmacias");
    assert_eq!(sin_filas.codigo_estado(), 303);
    let falla = respuesta_de_mutacion(
        &Err(ErrorAlmacen::Fallo("se perdio la conexion".to_string())),
        "/farmacias",
    );
    assert_eq!(falla.codigo_estado(), 500);
    match falla {
        Respuesta::ErrorServidor(mensaje) => assert_eq!(mensaje, "se perdio la conexion"),
        _ => panic!("se esperaba un error del servidor"),
    }
    let alta = respuesta_de_insercion(&Ok(()), "/medicamentos");
    match alta {
        Respuesta::Redireccion(destino) => assert_eq!(destino, "/medicamentos"),
        _ => panic!("se esperaba una redireccion"),
    }
}
