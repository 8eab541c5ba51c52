use botica::Verbo;
use botica::rutas::{enrutar, Accion, Ruta};

#[test]
fn rutas_fijas() {
    assert_eq!(enrutar(Verbo::Get, "/"), Ruta::Inicio);
    assert_eq!(enrutar(Verbo::Get, "/version"), Ruta::Version);
    assert_eq!(enrutar(Verbo::Get, "/farmacias"), Ruta::Farmacias(Accion::Listar));
    assert_eq!(
        enrutar(Verbo::Get, "/farmacias/crear_farmacia"),
        Ruta::Farmacias(Accion::Crear)
    );
    assert_eq!(
        enrutar(Verbo::Post, "/farmacias/insertar_farmacia"),
        Ruta::Farmacias(Accion::Insertar)
    );
    assert_eq!(
        enrutar(Verbo::Post, "/farmacias/actualizar_farmacia"),
        Ruta::Farmacias(Accion::Actualizar)
    );
    assert_eq!(enrutar(Verbo::Get, "/medicamentos"), Ruta::Medicamentos(Accion::Listar));
    assert_eq!(
        enrutar(Verbo::Get, "/medicamentos/crear_medicamento"),
        Ruta::Medicamentos(Accion::Crear)
    );
    assert_eq!(
        enrutar(Verbo::Post, "/medicamentos/insertar_medicamento"),
        Ruta::Medicamentos(Accion::Insertar)
    );
    assert_eq!(
        enrutar(Verbo::Post, "/medicamentos/actualizar_medicamento"),
        Ruta::Medicamentos(Accion::Actualizar)
    );
}

#[test]
fn rutas_con_clave() {
    assert_eq!(
        enrutar(Verbo::Get, "/farmacias/editar_farmacia/7"),
        Ruta::Farmacias(Accion::Editar(7))
    );
    assert_eq!(
        enrutar(Verbo::Get, "/farmacias/borrar_farmacia/12"),
        Ruta::Farmacias(Accion::Borrar(12))
    );
    assert_eq!(
        enrutar(Verbo::Get, "/medicamentos/editar_medicamento/3"),
        Ruta::Medicamentos(Accion::Editar(3))
    );
    assert_eq!(
        enrutar(Verbo::Get, "/medicamentos/borrar_medicamento/9"),
        Ruta::Medicamentos(Accion::Borrar(9))
    );
    assert_eq!(
        enrutar(Verbo::Get, "/farmacias/editar_farmacia/-3"),
        Ruta::Farmacias(Accion::Editar(-3))
    );
}

#[test]
fn clave_ilegible() {
    assert_eq!(
        enrutar(Verbo::Get, "/farmacias/editar_farmacia/x"),
        Ruta::Farmacias(Accion::ClaveInvalida)
    );
    assert_eq!(
        enrutar(Verbo::Get, "/farmacias/borrar_farmacia/7.5"),
        Ruta::Farmacias(Accion::ClaveInvalida)
    );
    assert_eq!(
        enrutar(Verbo::Get, "/medicamentos/editar_medicamento/99999999999"),
        Ruta::Medicamentos(Accion::ClaveInvalida)
    );
}

#[test]
fn caminos_sin_ruta() {
    assert_eq!(enrutar(Verbo::Get, "/farmacias/editar_farmacia/"), Ruta::NoEncontrada);
    assert_eq!(enrutar(Verbo::Get, "/farmacias/editar_farmacia/1/2"), Ruta::NoEncontrada);
    assert_eq!(enrutar(Verbo::Get, "/otra"), Ruta::NoEncontrada);
    assert_eq!(enrutar(Verbo::Get, ""), Ruta::NoEncontrada);
    assert_eq!(enrutar(Verbo::Post, "/farmacias"), Ruta::NoEncontrada);
    assert_eq!(enrutar(Verbo::Get, "/farmacias/insertar_farmacia"), Ruta::NoEncontrada);
    assert_eq!(enrutar(Verbo::Post, "/"), Ruta::NoEncontrada);
}
