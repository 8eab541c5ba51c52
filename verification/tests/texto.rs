use botica::texto::{es_decimal_valido, parsear_entero};

#[test]
fn entero_simple() {
    assert_eq!(parsear_entero("42"), Some(42));
}

#[test]
fn entero_negativo() {
    assert_eq!(parsear_entero("-17"), Some(-17));
}

#[test]
fn entero_con_signo_positivo() {
    assert_eq!(parsear_entero("+5"), Some(5));
}

#[test]
fn entero_con_ceros_iniciales() {
    assert_eq!(parsear_entero("007"), Some(7));
}

#[test]
fn entero_limites() {
    assert_eq!(parsear_entero("2147483647"), Some(i32::MAX));
    assert_eq!(parsear_entero("-2147483648"), Some(i32::MIN));
}

#[test]
fn entero_desbordado() {
    assert_eq!(parsear_entero("2147483648"), None);
    assert_eq!(parsear_entero("-2147483649"), None);
    assert_eq!(parsear_entero("99999999999999999999"), None);
}

#[test]
fn entero_invalido() {
    assert_eq!(parsear_entero(""), None);
    assert_eq!(parsear_entero("-"), None);
    assert_eq!(parsear_entero("+"), None);
    assert_eq!(parsear_entero("12a"), None);
    assert_eq!(parsear_entero("a12"), None);
    assert_eq!(parsear_entero("1 2"), None);
    assert_eq!(parsear_entero("2.5"), None);
}

#[test]
fn decimal_valido() {
    assert!(es_decimal_valido("2.50"));
    assert!(es_decimal_valido("10"));
    assert!(es_decimal_valido("-3.1"));
    assert!(es_decimal_valido("+0.99"));
    assert!(es_decimal_valido("0"));
}

#[test]
fn decimal_invalido() {
    assert!(!es_decimal_valido(""));
    assert!(!es_decimal_valido("."));
    assert!(!es_decimal_valido("2."));
    assert!(!es_decimal_valido(".5"));
    assert!(!es_decimal_valido("1.2.3"));
    assert!(!es_decimal_valido("abc"));
    assert!(!es_decimal_valido("1e3"));
    assert!(!es_decimal_valido("-"));
    assert!(!es_decimal_valido("2,50"));
}
