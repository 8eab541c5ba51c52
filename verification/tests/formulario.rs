use botica::formulario::{
    atar_farmacia, atar_medicamento, atar_nueva_farmacia, atar_nuevo_medicamento, valor_campo,
};

fn formulario(pares: &[(&str, &str)]) -> Vec<(String, String)> {
    pares.iter().map(|(c, v)| (c.to_string(), v.to_string())).collect()
}

#[test]
fn busqueda_de_campo() {
    let f = formulario(&[("a", "1"), ("b", "2"), ("a", "3")]);
    assert_eq!(valor_campo(&f, "a"), Some("1".to_string()));
    assert_eq!(valor_campo(&f, "b"), Some("2".to_string()));
    assert_eq!(valor_campo(&f, "c"), None);
}

#[test]
fn atadura_de_nueva_farmacia() {
    let f = formulario(&[("nombre", "Central"), ("direccion", "Calle 1")]);
    let entrada = atar_nueva_farmacia(&f).unwrap();
    assert_eq!(entrada.nombre, "Central");
    assert_eq!(entrada.direccion, "Calle 1");
    assert_eq!(entrada.telefono, None);
}

#[test]
fn atadura_sin_nombre() {
    let f = formulario(&[("direccion", "Calle 1")]);
    assert_eq!(atar_nueva_farmacia(&f).unwrap_err(), "falta el campo nombre");
}

#[test]
fn atadura_de_farmacia_completa() {
    let f = formulario(&[
        ("id", "4"),
        ("nombre", "Central"),
        ("direccion", "Calle 1"),
        ("telefono", ""),
    ]);
    let registro = atar_farmacia(&f).unwrap();
    assert_eq!(registro.id, 4);
    assert_eq!(registro.telefono, Some("".to_string()));
}

#[test]
fn atadura_con_id_ilegible() {
    let f = formulario(&[("id", "x"), ("nombre", "Central"), ("direccion", "Calle 1")]);
    assert_eq!(atar_farmacia(&f).unwrap_err(), "el campo id no es un numero entero");
}

#[test]
fn atadura_de_nuevo_medicamento() {
    let f = formulario(&[
        ("nombre", "Paracetamol"),
        ("principio_activo", "Paracetamol"),
        ("presentacion", "Tableta"),
        ("precio", "2.50"),
    ]);
    let entrada = atar_nuevo_medicamento(&f).unwrap();
    assert_eq!(entrada.precio, "2.50");
}

#[test]
fn atadura_sin_precio() {
    let f = formulario(&[
        ("nombre", "Paracetamol"),
        ("principio_activo", "Paracetamol"),
        ("presentacion", "Tableta"),
    ]);
    assert_eq!(atar_nuevo_medicamento(&f).unwrap_err(), "falta el campo precio");
}

#[test]
fn atadura_de_medicamento_completo() {
    let f = formulario(&[
        ("id", "2"),
        ("nombre", "Ibuprofeno"),
        ("principio_activo", "Ibuprofeno"),
        ("presentacion", "Capsula"),
        ("precio", "10"),
    ]);
    let registro = atar_medicamento(&f).unwrap();
    assert_eq!(registro.id, 2);
    assert_eq!(registro.precio, "10");
}
