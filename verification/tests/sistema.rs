use sistema_ventas::caja::Caja;
use sistema_ventas::clave::get_hash;
use sistema_ventas::config::Config;
use sistema_ventas::db::ClienteDB;
use sistema_ventas::db::ProvDB;
use sistema_ventas::error::AppError;
use sistema_ventas::pago::MedioPago;
use sistema_ventas::sistema::{Busqueda, Sistema};
use sistema_ventas::user::{Rango, User};
use sistema_ventas::valuable::{Pesable, Presentacion, Producto, Rubro, Valuable};
use sistema_ventas::venta::Venta;

fn caja_inicial() -> Caja {
    let config = Config::default();
    let anterior = Caja::build(4, 0, Some(10), 0, 0, Some(0), None, Vec::new());
    Caja::new(Some(anterior), Some(0), &config, 100).unwrap()
}

fn sistema(logged: bool) -> Sistema {
    let mut s = Sistema::new(caja_inicial(), Config::default(), (Venta::new(1, None), Venta::new(2, None)), Vec::new(), Vec::new());
    if logged {
        let user = User::new("test", "Test", get_hash("9876"), "Admin");
        let a = Venta::new(1, Some(user.copia()));
        let b = Venta::new(2, Some(user.copia()));
        s.try_login(Some((user, a, b)), true).unwrap();
    }
    s
}

/// A search filter read as the program reads it: the quantity as a float, in thousandths.
fn filtro(f: &str) -> (u32, Busqueda) {
    let (cantidad, texto) = Sistema::splitx(f).unwrap();
    let c = cantidad.map(|c| c.parse::<f32>().unwrap()).unwrap_or(1.0);
    ((c as f64 * 1000.0) as u32, Sistema::busqueda(&texto))
}

fn producto(id: i64, codigo: i64, precio: u64, tipo: &str, marca: &str, variedad: &str) -> Producto {
    Producto::new(id, vec![codigo], precio, 4000, 100000, tipo, marca, variedad, Presentacion::Un(5))
}

#[test]
fn try_login_test() {
    let s = sistema(true);
    assert_eq!(s.user().unwrap().nombre(), "Test");
}

#[test]
#[should_panic(expected = "Contraseña")]
fn not_pass_try_login_test() {
    let mut s = sistema(false);
    s.try_login(None, true).unwrap();
}

#[test]
#[should_panic(expected = "Usuario")]
fn not_user_try_login_test() {
    let mut s = sistema(false);
    s.try_login(None, false).unwrap();
}

#[test]
fn agregar_cliente_test() {
    let s = sistema(true);
    let nombre = "NombreCliente";
    let dni = "37846515";
    match s.agregar_cliente(nombre, dni.parse::<i64>().unwrap(), false, true, None, 0, false, 1) {
        Ok(a) => assert!(nombre == a.nombre() && dni.parse::<i64>().unwrap() == *a.dni()),
        Err(e) => panic!("{:?}", e),
    }
}

#[test]
fn get_clientes_test() {
    let nombre = "NombreCliente";
    let dni = "37846515";
    let nombre2 = "Nombre2";
    let dni2 = "73222512";
    let filas = vec![
        ClienteDB { id: 1, nombre: nombre.to_string(), dni: dni.parse().unwrap(), credito: false, limite: None, activo: true, time: 0 },
        ClienteDB { id: 2, nombre: nombre2.to_string(), dni: dni2.parse().unwrap(), credito: true, limite: Some(100000), activo: true, time: 0 },
    ];
    let clientes = sistema(true).get_clientes(&filas);
    assert!(clientes[0].nombre() == nombre && clientes[1].nombre() == nombre2);
}

#[test]
fn agregar_producto_test() {
    let mut s = sistema(true);
    let p = s
        .agregar_producto(1, &Vec::new(), &Vec::new(), &vec!["51435613".to_string()], 140000, 4000, 100000,
            "tipo_producto", "marca", "variedad", 5000, "Un", false)
        .unwrap();
    let filas = vec![vec![p.marca(), p.variedad(), p.tipo_producto()]];
    let palabras: Vec<String> = "tip mar var".split(' ').map(|x| x.to_string()).collect();
    let res = Sistema::refinar(&filas, &palabras, 20);
    assert!(res.len() == 1 && p.desc().contains("tipo") && p.desc().contains("marca") && p.desc().contains("variedad"));
}

#[test]
fn get_productos_filtrado_test() {
    let s = sistema(true);
    let marca = "marca";
    let tipo = "tipo_prod";
    let variedad = "variedad";
    let p1 = producto(1, 6841651, 140000, tipo, marca, variedad);
    let (cantidad, busqueda) = filtro("ti mar va ");
    // The store answers the first word with the products whose fields hold it.
    let encontrados = vec![p1];
    let res = Sistema::val_filtrado(
        s.prods_filtrado(cantidad, &busqueda, &encontrados),
        s.pes_filtrado(cantidad, &busqueda, &Vec::new()),
        s.rub_filtrado(cantidad, &busqueda, &Vec::new()),
    );
    let prod = match &res[0] {
        Valuable::Prod(p) => p.1.copia(),
        Valuable::Pes(p) => panic!("Dio Pes {p:#?}"),
        Valuable::Rub(r) => panic!("Dios Rub {r:#?}"),
    };
    assert!(res.len() == 1 && prod.marca() == marca && prod.tipo_producto() == tipo);
}

#[test]
fn agregar_producto_a_venta_test() {
    let mut s = sistema(true);
    let p1 = producto(1, 6841651, 140000, "tipo_prod", "marca", "variedad");
    let p2 = producto(2, 51435613, 280000, "type", "brand", "variedad");
    s.agregar_producto_a_venta(Valuable::Prod((1, p1)), true, true).unwrap();
    s.agregar_producto_a_venta(Valuable::Prod((1, p2)), true, true).unwrap();
    assert!(s.venta(true).monto_total() == 420000);
}

#[test]
fn agregar_producto_a_venta_repetido_test() {
    let mut s = sistema(true);
    let p1 = producto(1, 6841651, 140000, "tipo_prod", "marca", "variedad");
    s.agregar_producto_a_venta(Valuable::Prod((1, p1.copia())), true, true).unwrap();
    s.agregar_producto_a_venta(Valuable::Prod((1, p1)), true, true).unwrap();
    assert!(s.venta(true).monto_total() == 280000);
}

#[test]
fn agregar_proveedor_sin_contacto_test() {
    let mut s = sistema(true);
    let prov = "EjemploProv";
    s.agregar_proveedor(prov, None, false, 1).unwrap();
    let provs = Sistema::proveedores(&vec![ProvDB { id: 1, nombre: prov.to_string(), contacto: None }]);
    assert!(provs.len() == 1 && provs[0].nombre() == prov && provs[0].contacto().is_none());
}

#[test]
fn agregar_proveedor_con_contacto_test() {
    let mut s = sistema(true);
    let prov = "EjemploProv2";
    let cont = "54161";
    s.agregar_proveedor(prov, Some(cont.parse().unwrap()), false, 1).unwrap();
    let provs = Sistema::proveedores(&vec![ProvDB { id: 1, nombre: prov.to_string(), contacto: Some(cont.parse().unwrap()) }]);
    assert!(provs.len() == 1 && provs[0].nombre() == prov && provs[0].contacto().unwrap() == cont.parse::<i64>().unwrap());
}

#[test]
fn agregar_pago_test() {
    let mut s = sistema(true);
    let p = producto(1, 658651, 140000, "tipo_producto", "marca", "variedad");
    s.agregar_producto_a_venta(Valuable::Prod((1, p)), true, true).unwrap();
    s.agregar_pago(MedioPago::new("Efectivo", 1), 100000, true, 3).unwrap();
    let pagos = s.venta(true).pagos();
    assert!(pagos.len() == 1 && pagos[0].monto() == 100000);
}

#[test]
fn pago_que_cierra_la_venta() {
    let mut s = sistema(true);
    let p = producto(1, 658651, 140000, "tipo_producto", "marca", "variedad");
    s.agregar_producto_a_venta(Valuable::Prod((1, p)), true, true).unwrap();
    let resto = s.agregar_pago(MedioPago::new("Efectivo", 1), 150000, true, 3).unwrap();
    assert_eq!(resto, -10000);
    assert_eq!(s.registro().len(), 1);
    assert!(s.registro()[0].cerrada() && s.registro()[0].paga());
    assert_eq!(*s.venta(true).id(), 3);
    assert_eq!(s.venta(true).cantidad_productos(), 0);
    assert_eq!(s.caja().ventas_totales(), 140000);
    let efectivo = s.caja().totales().iter().find(|t| t.0 == "Efectivo").unwrap().1;
    assert_eq!(efectivo, 150000);
}

#[test]
fn pago_con_tarjeta_que_excede() {
    let mut s = sistema(true);
    let p = producto(1, 658651, 140000, "tipo_producto", "marca", "variedad");
    s.agregar_producto_a_venta(Valuable::Prod((1, p)), true, true).unwrap();
    match s.agregar_pago(MedioPago::new("Débito", 3), 150000, true, 3) {
        Err(AppError::AmountError { a_pagar, pagado }) => {
            assert_eq!(a_pagar, 140000);
            assert_eq!(pagado, 150000);
        },
        otro => panic!("{:?}", otro),
    }
    assert_eq!(s.venta(true).pagos().len(), 0);
}

#[test]
fn cuenta_corriente_sin_cliente() {
    let mut s = sistema(true);
    let p = producto(1, 658651, 140000, "tipo_producto", "marca", "variedad");
    s.agregar_producto_a_venta(Valuable::Prod((1, p)), true, true).unwrap();
    assert!(matches!(s.agregar_pago(MedioPago::new("Cuenta Corriente", 0), 1000, true, 3), Err(AppError::IncorrectError(_))));
}

#[test]
fn apartar_y_recuperar_venta() {
    let mut s = sistema(true);
    let p = producto(1, 658651, 140000, "tipo_producto", "marca", "variedad");
    s.agregar_producto_a_venta(Valuable::Prod((1, p)), false, true).unwrap();
    s.stash_sale(false, 9).unwrap();
    assert_eq!(s.stash().len(), 1);
    assert_eq!(s.venta(false).cantidad_productos(), 0);
    assert_eq!(*s.venta(false).id(), 9);
    s.unstash_sale(false, 0).unwrap();
    assert_eq!(s.stash().len(), 0);
    assert_eq!(*s.venta(false).id(), 2);
    assert_eq!(s.venta(false).monto_total(), 140000);
    assert!(matches!(s.unstash_sale(false, 0), Err(AppError::SaleSelection)));
}

#[test]
fn recuperar_venta_aparta_la_actual() {
    let mut s = sistema(true);
    let p = producto(1, 658651, 140000, "tipo_producto", "marca", "variedad");
    s.stash_sale(true, 5).unwrap();
    s.agregar_producto_a_venta(Valuable::Prod((1, p)), true, true).unwrap();
    s.unstash_sale(true, 0).unwrap();
    assert_eq!(*s.venta(true).id(), 1);
    assert_eq!(s.stash().len(), 1);
    assert_eq!(*s.stash()[0].id(), 5);
}

#[test]
fn cerrar_caja_abre_la_siguiente() {
    let mut s = sistema(true);
    let id = s.caja().id();
    s.cerrar_caja(50000, 777).unwrap();
    assert_eq!(s.caja().id(), id + 1);
    assert_eq!(s.caja().monto_inicio(), 50000);
    assert_eq!(s.caja().inicio(), 777);
    assert_eq!(s.caja().cajero(), Some("Test".to_string()));
    assert_eq!(s.caja().totales().len(), 3);
}

#[test]
fn producto_que_no_existe() {
    let mut s = sistema(true);
    let p = producto(541651, 1, 140000, "tipo", "marca", "variedad");
    match s.agregar_producto_a_venta(Valuable::Prod((0, p)), true, false) {
        Err(AppError::NotFound { objeto, instancia }) => {
            assert_eq!(objeto, "Producto");
            assert_eq!(instancia, "tipo marca variedad");
        },
        otro => panic!("{:?}", otro),
    }
}

#[test]
fn eliminar_producto_y_vaciar() {
    let mut s = sistema(true);
    let p1 = producto(1, 1, 140000, "a", "b", "c");
    let p2 = producto(2, 2, 280000, "d", "e", "f");
    s.agregar_producto_a_venta(Valuable::Prod((1, p1)), true, true).unwrap();
    s.agregar_producto_a_venta(Valuable::Prod((1, p2)), true, true).unwrap();
    let v = s.eliminar_producto_de_venta(0, true).unwrap();
    assert_eq!(v.monto_total(), 280000);
    assert!(matches!(s.eliminar_producto_de_venta(5, true), Ok(_)));
    assert_eq!(s.venta(true).cantidad_productos(), 0);
}

#[test]
fn incrementar_y_descontar() {
    let mut s = sistema(true);
    let p1 = producto(1, 1, 140000, "a", "b", "c");
    s.agregar_producto_a_venta(Valuable::Prod((1, p1)), true, true).unwrap();
    assert_eq!(s.incrementar_producto_a_venta(0, true).unwrap().monto_total(), 280000);
    assert_eq!(s.descontar_producto_de_venta(0, true).unwrap().monto_total(), 140000);
    assert_eq!(s.descontar_producto_de_venta(0, true).unwrap().monto_total(), 140000);
    match s.descontar_producto_de_venta(3, true) {
        Err(AppError::NotFound { objeto, instancia }) => {
            assert_eq!(objeto, "Indice");
            assert_eq!(instancia, "3");
        },
        otro => panic!("{:?}", otro),
    }
}

#[test]
fn eliminar_pago_de_venta() {
    let mut s = sistema(true);
    let p1 = producto(1, 1, 140000, "a", "b", "c");
    s.agregar_producto_a_venta(Valuable::Prod((1, p1)), true, true).unwrap();
    s.agregar_pago(MedioPago::new("Efectivo", 1), 50000, true, 3).unwrap();
    let id = s.venta(true).pagos()[0].id();
    let pagos = s.eliminar_pago(true, id).unwrap();
    assert_eq!(pagos.len(), 0);
    assert_eq!(s.venta(true).monto_pagado(), 0);
    assert!(matches!(s.eliminar_pago(true, id), Err(AppError::IncorrectError(_))));
}

#[test]
fn cancelar_y_cerrar_sesion() {
    let mut s = sistema(true);
    let p1 = producto(1, 1, 140000, "a", "b", "c");
    s.agregar_producto_a_venta(Valuable::Prod((1, p1)), true, true).unwrap();
    s.cancelar_venta(true).unwrap();
    assert_eq!(s.venta(true).cantidad_productos(), 0);
    assert_eq!(s.venta(true).monto_total(), 0);
    s.cerrar_sesion();
    assert!(s.user().is_none());
}

#[test]
fn agregar_usuario_con_hash() {
    let s = sistema(true);
    let u = s.agregar_usuario("cajero", "Cajero Uno", "clave", "Cajero", false).unwrap();
    assert_eq!(u.pass(), get_hash("clave"));
    assert_eq!(*u.rango(), Rango::Cajero);
    assert!(matches!(s.agregar_usuario("cajero", "Cajero Uno", "clave", "Cajero", true), Err(AppError::IncorrectError(_))));
}

#[test]
fn procesar_sin_datos() {
    let prep = Sistema::procesar(Vec::new(), Vec::new(), Vec::new(), Vec::new(), &vec!["Efectivo".to_string()], 0);
    assert!(prep.escribir_configs);
    assert_eq!(prep.configs.len(), 1);
    assert_eq!(prep.medios_nuevos, vec!["Crédito".to_string(), "Débito".to_string()]);
    assert!(prep.cuenta_nueva);
    let admin = prep.admin.unwrap();
    assert_eq!(admin.id(), "admin");
    assert_eq!(admin.pass(), get_hash("1234"));
}

#[test]
fn filtros_y_marcas() {
    assert!(matches!(Sistema::splitx("2*pan"), Ok((Some(c), t)) if c == "2" && t == "pan"));
    assert!(matches!(Sistema::splitx("+1e2*pan"), Ok((Some(c), _)) if c == "+1e2"));
    assert!(matches!(Sistema::splitx("pan"), Ok((None, t)) if t == "pan"));
    assert!(matches!(Sistema::splitx("1*2*pan"), Err(AppError::ParseError)));
    let marcas = Sistema::filtrar_marca(&vec!["a".to_string(), "b".to_string(), "a".to_string()]);
    assert_eq!(marcas, vec!["a".to_string(), "b".to_string()]);
    assert_eq!(Sistema::unidades(1500), 1);
    assert_eq!(Sistema::unidades(900000), 255);
}

#[test]
fn refinar_toma_la_cantidad() {
    let filas: Vec<Vec<String>> = vec![
        vec!["Leche Entera".to_string()],
        vec!["LECHE descremada".to_string()],
        vec!["Pan".to_string()],
        vec!["leche chocolatada".to_string()],
    ];
    let palabras = vec!["x".to_string(), "leche".to_string()];
    assert_eq!(Sistema::refinar(&filas, &palabras, 2), vec![0, 1]);
    assert_eq!(Sistema::refinar(&filas, &palabras, 10), vec![0, 1, 3]);
    // With one word the store's rows are kept, up to twice the quantity.
    assert_eq!(Sistema::refinar(&filas, &vec!["x".to_string()], 1), vec![0, 1]);
    assert_eq!(Sistema::refinar(&filas, &vec!["x".to_string()], 2), vec![0, 1, 2, 3]);
}

#[test]
fn estado_de_sesion() {
    let mut s = sistema(true);
    assert!(s.get_logged_state());
    assert_eq!(s.arc_user().id(), "test");
    s.cerrar_sesion();
    assert!(!s.get_logged_state());
}

#[test]
fn cierre_suma_a_la_caja() {
    let mut s = sistema(true);
    let p = producto(1, 658651, 140000, "t", "m", "v");
    s.agregar_producto_a_venta(Valuable::Prod((1, p)), false, true).unwrap();
    s.agregar_pago(MedioPago::new("Débito", 3), 40000, false, 7).unwrap();
    s.agregar_pago(MedioPago::new("Efectivo", 1), 100000, false, 7).unwrap();
    let total: u64 = s.caja().totales().iter().map(|t| t.1).sum();
    assert_eq!(total, 140000);
    assert_eq!(s.caja().ventas_totales(), 140000);
    assert_eq!(s.registro().len(), 1);
    assert_eq!(*s.venta(false).id(), 7);
}

#[test]
fn busqueda_por_codigo_o_palabras() {
    assert!(matches!(filtro("3*779123"), (3000, Busqueda::Codigo(779123))));
    assert!(matches!(filtro("+2*779123"), (2000, Busqueda::Codigo(779123))));
    assert!(matches!(filtro("1e2*779123"), (100000, Busqueda::Codigo(779123))));
    match filtro("leche entera") {
        (1000, Busqueda::Palabras(ps)) => assert_eq!(ps, vec!["leche".to_string(), "entera".to_string()]),
        _ => panic!("no se leyó la búsqueda"),
    }
}

#[test]
fn filtrados_por_tipo_de_articulo() {
    let s = sistema(true);
    // The default policy rounds 1234.56 to the nearest ten pesos.
    let p = producto(1, 11, 123456, "Leche", "Serenisima", "Entera");
    let (cant, busqueda) = filtro("2.5*leche ser");
    let prods = s.prods_filtrado(cant, &busqueda, &vec![p, producto(2, 12, 5000, "Leche", "Otra", "Entera")]);
    assert_eq!(prods.len(), 1);
    assert_eq!(prods[0].0, 2);
    assert_eq!(*prods[0].1.precio_de_venta(), 123000);
    let pes = Pesable::build(3, 13, 90000, 3000, 60000, "Queso cremoso serrano");
    let pesables = s.pes_filtrado(cant, &busqueda, &vec![pes]);
    assert_eq!(pesables.len(), 1);
    assert_eq!(pesables[0].0, 2500);
    let rubs = s.rub_filtrado(cant, &busqueda, &vec![Rubro::build(4, 14, Some(500), "Leches sueltas"), Rubro::build(5, 15, None, "Verduleria")]);
    assert_eq!(rubs.len(), 0);
    let (cant, codigo) = filtro("14");
    let rubs = s.rub_filtrado(cant, &codigo, &vec![Rubro::build(4, 14, Some(500), "Leches sueltas")]);
    assert_eq!(rubs.len(), 1);
    assert_eq!(rubs[0].0, 1);
    assert_eq!(rubs[0].1.monto(), Some(0));
}

#[test]
fn ingresos_y_egresos_de_caja() {
    let s = sistema(true);
    let i = s.hacer_ingreso(5000, Some("cambio".to_string()));
    assert!(i.tipo && i.monto == 5000 && i.descripcion.as_deref() == Some("cambio"));
    assert_eq!(i.caja, s.caja().id());
    let e = s.hacer_egreso(700, None);
    assert!(!e.tipo && e.monto == 700 && e.descripcion.is_none());
}

#[test]
fn cliente_de_la_fila() {
    let fila = ClienteDB { id: 9, nombre: "Ana".to_string(), dni: 30111222, credito: true, limite: Some(5000), activo: true, time: 12 };
    match Sistema::get_cliente(Some(fila)) {
        sistema_ventas::cliente::Cliente::Regular(c) => assert!(c.nombre() == "Ana" && *c.dni() == 30111222),
        sistema_ventas::cliente::Cliente::Final => panic!("se esperaba un cliente registrado"),
    }
}

#[test]
fn refinar_exige_cada_palabra() {
    let filas: Vec<Vec<String>> = vec![
        vec!["Leche".to_string(), "Entera".to_string()],
        vec!["Leche".to_string(), "Descremada".to_string()],
        vec!["Yogur".to_string(), "entero".to_string()],
    ];
    let palabras = vec!["le".to_string(), "leche".to_string(), "ENTER".to_string()];
    assert_eq!(Sistema::refinar(&filas, &palabras, 5), vec![0]);
}

#[test]
fn agregar_pesable_test() {
    let s = sistema(true);
    let desc = "PesablePrueba";
    let pes = Pesable::new_to_db(1541546, 100000, 4000, 140000, desc, false, 1).unwrap();
    let (cant, busqueda) = filtro(desc);
    // The store answers the first word with the articles whose description holds it.
    let res = Sistema::val_filtrado(
        s.prods_filtrado(cant, &busqueda, &Vec::new()),
        s.pes_filtrado(cant, &busqueda, &vec![pes]),
        s.rub_filtrado(cant, &busqueda, &Vec::new()),
    );
    match &res[0] {
        Valuable::Pes(p) => assert!(res.len() == 1 && p.1.desc() == desc),
        _ => panic!("se esperaba un pesable"),
    }
}

#[test]
fn agregar_rubro_test() {
    let s = sistema(true);
    let desc = "Rubro";
    let rub = Rubro::new_to_db(6441, None, desc, None, 1).unwrap();
    let (cant, busqueda) = filtro("rub");
    let res = Sistema::val_filtrado(
        s.prods_filtrado(cant, &busqueda, &Vec::new()),
        s.pes_filtrado(cant, &busqueda, &Vec::new()),
        s.rub_filtrado(cant, &busqueda, &vec![rub]),
    );
    let rub = match &res[0] {
        Valuable::Prod(_) => panic!("Dio Prod"),
        Valuable::Pes(_) => panic!("Dio Pes"),
        Valuable::Rub(rub) => rub.1.copia(),
    };
    assert!(res.len() == 1 && rub.desc() == desc)
}

#[test]
#[should_panic(expected = "existente")]
fn agregar_rubro_repetido_test() {
    let cod = 1465;
    let primero = Rubro::new_to_db(cod, None, "UnaDesc", None, 1).unwrap();
    // The second time the store finds the code, stored for the first department.
    let guardado = sistema_ventas::db::CodeDB { id: 1, codigo: cod, producto: None, pesable: None, rubro: Some(*primero.id()) };
    Rubro::new_to_db(cod, None, "OtraDesc", Some(guardado), 2).unwrap();
}

#[test]
fn busqueda_con_tope() {
    let s = sistema(true);
    // Twenty products per search by default: the store is asked for forty rows.
    assert_eq!(s.limite_busqueda(), 40);
    let (cant, busqueda) = filtro("leche");
    let encontrados: Vec<Producto> = (0..50).map(|i| producto(i, 1000 + i, 100000, "Leche", "Marca", "Entera")).collect();
    assert_eq!(s.prods_filtrado(cant, &busqueda, &encontrados).len(), 40);
    let (cant, busqueda) = filtro("leche entera");
    assert_eq!(s.prods_filtrado(cant, &busqueda, &encontrados).len(), 20);
    let (cant, codigo) = filtro("1003");
    assert_eq!(s.prods_filtrado(cant, &codigo, &encontrados[3..5].to_vec()).len(), 1);
}

#[test]
#[should_panic(expected = "existente")]
fn agregar_producto_existente_test() {
    let mut s = sistema(true);
    s.agregar_producto(1, &Vec::new(), &Vec::new(), &vec!["51435613".to_string()], 140000, 4000, 100000,
        "tipo_producto", "marca", "variedad", 5000, "Un", false)
        .unwrap();
    // The second time the store finds bar code 51435613 registered.
    s.agregar_producto(2, &Vec::new(), &Vec::new(), &vec!["51435613".to_string()], 140000, 4000, 100000,
        "tipo_producto", "marca", "variedad", 5000, "Un", true)
        .unwrap();
}
