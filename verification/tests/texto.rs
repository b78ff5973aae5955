use sistema_ventas::error::ErrorEntero;
use sistema_ventas::valuable::milesimas_a_texto;
use sistema_ventas::texto::{camalize, contiene, dividir, entero_a_texto, iguales_sin_caso, natural_a_texto, parse_entero, parse_milesimas, parse_natural};

#[test]
fn not_code_agregar_rubro_test() {
    let r = parse_entero("Incorrect").map_err(|e| e.mensaje());
    assert!(r.is_err());
    assert!(r.unwrap_err().contains("invalid digit"));
}

#[test]
fn enteros_como_std() {
    for s in ["0", "-12", "+7", "9223372036854775807", "-9223372036854775808", "", "-", "12a", "9223372036854775808", "-9223372036854775809"] {
        let esperado = s.parse::<i64>();
        let obtenido = parse_entero(s);
        match (esperado, obtenido) {
            (Ok(a), Ok(b)) => assert_eq!(a, b),
            (Err(e), Err(k)) => {
                let kind = match e.kind() {
                    std::num::IntErrorKind::Empty => ErrorEntero::Vacio,
                    std::num::IntErrorKind::InvalidDigit => ErrorEntero::DigitoInvalido,
                    std::num::IntErrorKind::PosOverflow => ErrorEntero::DemasiadoGrande,
                    std::num::IntErrorKind::NegOverflow => ErrorEntero::DemasiadoChico,
                    _ => panic!("kind"),
                };
                assert_eq!(kind, k);
                assert_eq!(e.to_string(), k.mensaje());
            },
            (a, b) => panic!("{:?} {:?}", a, b),
        }
    }
    assert_eq!(parse_natural("18446744073709551615"), Ok(u64::MAX));
    assert_eq!(parse_natural("-1"), Err(ErrorEntero::DigitoInvalido));
}

#[test]
fn textos_de_numeros() {
    assert_eq!(entero_a_texto(-9223372036854775808), "-9223372036854775808");
    assert_eq!(entero_a_texto(0), "0");
    assert_eq!(natural_a_texto(1200), "1200");
    assert_eq!(parse_entero(&entero_a_texto(-4501)), Ok(-4501));
}

#[test]
fn milesimas() {
    assert_eq!(parse_milesimas("1.5"), Some(1500));
    assert_eq!(parse_milesimas(".25"), Some(250));
    assert_eq!(parse_milesimas("3"), Some(3000));
    assert_eq!(parse_milesimas("2.1239"), Some(2123));
    assert_eq!(parse_milesimas("4294967.295"), Some(u32::MAX));
    assert_eq!(parse_milesimas("4294967.296"), None);
    assert_eq!(parse_milesimas("."), None);
    assert_eq!(parse_milesimas(""), None);
    assert_eq!(parse_milesimas("1.2.3"), None);
    assert_eq!(parse_milesimas("-1"), None);
}

#[test]
fn dividir_como_split() {
    for (s, sep) in [("a*b", '*'), ("", ' '), ("ti mar va ", ' '), ("**", '*')] {
        let esperado: Vec<String> = s.split(sep).map(|x| x.to_string()).collect();
        assert_eq!(dividir(s, sep), esperado);
    }
}

#[test]
fn contiene_y_mayusculas() {
    assert!(contiene("tipo_prod", "ti"));
    assert!(contiene("abc", ""));
    assert!(!contiene("ab", "abc"));
    assert!(iguales_sin_caso("Cuenta Corriente", "cuenta CORRIENTE"));
    let mut s = "hola mundo  dos".to_string();
    camalize(&mut s);
    assert_eq!(s, "Hola Mundo  Dos");
}

#[test]
fn cantidades_ida_y_vuelta() {
    for m in [0u32, 1, 25, 500, 1500, 1234567, u32::MAX] {
        assert_eq!(parse_milesimas(&milesimas_a_texto(m)), Some(m));
    }
    for n in [0u64, 7, 10, 18446744073709551615] {
        assert_eq!(parse_natural(&natural_a_texto(n)), Ok(n));
    }
    for n in [i64::MIN, -1, 0, 42, i64::MAX] {
        assert_eq!(parse_entero(&entero_a_texto(n)), Ok(n));
    }
}
