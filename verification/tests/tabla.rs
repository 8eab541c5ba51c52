use botica::almacen::ErrorAlmacen;
use botica::farmacia::{Farmacia, NuevaFarmacia};
use botica::tabla::Tabla;

fn entrada(nombre: &str, direccion: &str, telefono: Option<&str>) -> NuevaFarmacia {
    NuevaFarmacia {
        nombre: nombre.to_string(),
        direccion: direccion.to_string(),
        telefono: telefono.map(|t| t.to_string()),
    }
}

// P1: inserting and then listing yields exactly one new record with the
// submitted fields under a fresh key.
#[test]
fn insercion_y_listado() {
    let mut tabla: Tabla<Farmacia> = Tabla::nueva();
    assert!(tabla.insertar(entrada("Central", "Calle 1", Some("555"))).is_ok());
    assert!(tabla.insertar(entrada("Norte", "Calle 2", None)).is_ok());
    let filas = tabla.listar();
    assert_eq!(filas.len(), 2);
    assert_eq!(filas[0].id, 1);
    assert_eq!(filas[0].nombre, "Central");
    assert_eq!(filas[0].direccion, "Calle 1");
    assert_eq!(filas[0].telefono, Some("555".to_string()));
    assert_eq!(filas[1].id, 2);
    assert_eq!(filas[1].nombre, "Norte");
    assert_eq!(filas[1].telefono, None);
    assert!(filas[0].id != filas[1].id);
}

// P2: deleting the same key twice gives the same outcome both times, and
// after the first delete the record is gone from the listing.
#[test]
fn borrado_idempotente() {
    let mut tabla: Tabla<Farmacia> = Tabla::nueva();
    tabla.insertar(entrada("Central", "Calle 1", None)).unwrap();
    tabla.insertar(entrada("Norte", "Calle 2", None)).unwrap();
    let primera = tabla.eliminar(1).unwrap();
    assert_eq!(primera, 1);
    assert!(tabla.listar().iter().all(|f| f.id != 1));
    assert_eq!(tabla.listar().len(), 1);
    let segunda = tabla.eliminar(1).unwrap();
    assert_eq!(segunda, 0);
    assert_eq!(tabla.listar().len(), 1);
}

// P3: an update is a whole-record replacement: a field submitted empty
// clears what was stored before.
#[test]
fn actualizacion_reemplaza_todo() {
    let mut tabla: Tabla<Farmacia> = Tabla::nueva();
    tabla.insertar(entrada("A", "X", Some("555"))).unwrap();
    let afectadas = tabla
        .actualizar(Farmacia {
            id: 1,
            nombre: "A".to_string(),
            direccion: "X".to_string(),
            telefono: None,
        })
        .unwrap();
    assert_eq!(afectadas, 1);
    let registro = tabla.obtener(1).unwrap();
    assert_eq!(registro.nombre, "A");
    assert_eq!(registro.direccion, "X");
    assert_eq!(registro.telefono, None);
}

#[test]
fn actualizacion_de_clave_ausente() {
    let mut tabla: Tabla<Farmacia> = Tabla::nueva();
    tabla.insertar(entrada("A", "X", None)).unwrap();
    let afectadas = tabla
        .actualizar(Farmacia {
            id: 40,
            nombre: "B".to_string(),
            direccion: "Y".to_string(),
            telefono: None,
        })
        .unwrap();
    assert_eq!(afectadas, 0);
    assert_eq!(tabla.listar().len(), 1);
    assert_eq!(tabla.obtener(1).unwrap().nombre, "A");
}

// P4: listing an empty table is an empty sequence, not an error.
#[test]
fn listado_vacio() {
    let tabla: Tabla<Farmacia> = Tabla::nueva();
    assert_eq!(tabla.listar().len(), 0);
}

// P5: getting a key never inserted is a store-level failure, not a default
// record.
#[test]
fn busqueda_de_clave_ausente() {
    let mut tabla: Tabla<Farmacia> = Tabla::nueva();
    tabla.insertar(entrada("Central", "Calle 1", None)).unwrap();
    let resultado = tabla.obtener(9999);
    assert!(matches!(resultado, Err(ErrorAlmacen::FilaAusente)));
}

#[test]
fn claves_no_se_reutilizan() {
    let mut tabla: Tabla<Farmacia> = Tabla::nueva();
    tabla.insertar(entrada("A", "X", None)).unwrap();
    tabla.eliminar(1).unwrap();
    tabla.insertar(entrada("B", "Y", None)).unwrap();
    let filas = tabla.listar();
    assert_eq!(filas.len(), 1);
    assert_eq!(filas[0].id, 2);
}

#[test]
fn detalle_de_los_errores() {
    assert_eq!(
        ErrorAlmacen::FilaAusente.detalle(),
        "no hay ninguna fila con la clave pedida"
    );
    assert_eq!(
        ErrorAlmacen::Fallo("se perdio la conexion".to_string()).detalle(),
        "se perdio la conexion"
    );
}
