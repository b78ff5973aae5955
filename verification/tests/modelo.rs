use sistema_ventas::caja::{Caja, Movimiento};
use sistema_ventas::calculo::redondeo;
use sistema_ventas::clave::get_hash;
use sistema_ventas::cliente::{Cli, DeudaVenta, PagoCuenta};
use sistema_ventas::config::{Config, Formato, Mayusculas};
use sistema_ventas::db::{AccionRelacion, BigIntDB, CajaDB, CodeDB, ConfigDB, Db, MedioPagoDB, Mapper, PagoDB, ProductoDB, RelacionProdProvDB, RelatedPesDB, RelatedProdDB, RelatedRubDB, TotalDB, VentaDB};
use sistema_ventas::error::AppError;
use sistema_ventas::estilos::{input_style, style};
use sistema_ventas::pago::{MedioPago, Pago};
use sistema_ventas::proveedor::{Proveedor, RelacionProdProv};
use sistema_ventas::user::{Rango, User};
use sistema_ventas::valuable::{Pesable, Presentacion, Producto, Rubro, Valuable, ValuableTrait};
use sistema_ventas::vendedor::Vendedor;
use sistema_ventas::venta::Venta;

#[test]
fn redondeo_a_la_politica() {
    assert_eq!(redondeo(&1000, 1234), 1000);
    assert_eq!(redondeo(&1000, 1500), 2000);
    assert_eq!(redondeo(&1000, 1499), 1000);
    assert_eq!(redondeo(&1000, 3000), 3000);
    assert_eq!(redondeo(&0, 1234), 1234);
    assert_eq!(redondeo(&1000, u64::MAX), u64::MAX);
    assert_eq!(redondeo(&1000, redondeo(&1000, 76543)), redondeo(&1000, 76543));
}

#[test]
fn nombres_de_la_configuracion() {
    assert_eq!(Formato::Tmv.to_string(), "Tmv");
    assert_eq!(Mayusculas::desde_texto(&Mayusculas::Camel.to_string()), Some(Mayusculas::Camel));
    assert_eq!(Rango::desde_texto(&Rango::Cajero.to_string()), Some(Rango::Cajero));
    let c = Config::default();
    assert_eq!(c.politica(), 1000);
    assert_eq!(*c.cantidad_productos(), 20);
    assert_eq!(c.get_medios_pago(), vec!["Efectivo".to_string(), "Crédito".to_string(), "Débito".to_string()]);
    let guardada = ConfigDB { id: 1, politica: 500, formato: "Mtv".to_string(), mayus: "Lower".to_string(), cantidad: 7 };
    let c2 = Config::get_or_def(Some((guardada, vec![MedioPagoDB { id: 1, medio: "Efectivo".to_string() }])));
    assert_eq!(*c2.formato(), Formato::Mtv);
    assert_eq!(c2.get_medios_pago().len(), 1);
    assert_eq!(Config::get_or_def(None).politica(), 1000);
}

#[test]
fn hash_estable() {
    assert_eq!(get_hash("1234"), get_hash("1234"));
    assert_ne!(get_hash("1234"), get_hash("1235"));
}

#[test]
fn estilos() {
    assert!(input_style().contains("input{"));
    assert!(style().contains(":root"));
}

#[test]
fn vendedor_por_defecto() {
    let v = Vendedor::get_or_def(None);
    assert_eq!(*v.id(), 0);
    assert_eq!(v.nombre(), "Vendedor 1");
    assert_eq!(Vendedor::get_or_def(Some(Vendedor::new(3, "Ana"))).nombre(), "Ana");
}

#[test]
fn presentaciones() {
    assert_eq!(Presentacion::build("Gr", 500000).unwrap().to_string(), "500 Gr");
    assert_eq!(Presentacion::build("Lt", 1500).unwrap().to_string(), "1.5 Lt");
    assert_eq!(Presentacion::build("Un", 5000).unwrap(), Presentacion::Un(5));
    assert!(matches!(Presentacion::build("Xx", 1), Err(AppError::SizeSelection(s)) if s == "Xx"));
}

#[test]
fn descripciones_de_producto() {
    let mut p = Producto::new(1, vec![1, 2], 1000, 0, 0, "tipo", "marca", "variedad", Presentacion::Un(5));
    assert_eq!(p.desc(), "tipo marca variedad 5 Un");
    assert_eq!(p.nombre_completo(), "marca tipo variedad 5 Un");
    p.rm_code(0);
    assert_eq!(*p.codigos_de_barras(), vec![2]);
    let mut conf = Config::build(1000, "Mtv", "Upper", 20, Vec::new());
    let v = Valuable::Prod((1, p.copia()));
    assert_eq!(v.descripcion(&conf), "marca tipo variedad 5 Un");
    conf = Config::default();
    assert_eq!(v.descripcion(&conf), "tipo marca variedad");
}

#[test]
fn precios_redondeados() {
    let p = Producto::new(1, vec![1], 1234, 0, 0, "t", "m", "v", Presentacion::Un(1));
    assert_eq!(Valuable::Prod((1, p)).price(&1000), Some(1000));
    let pes = Pesable::build(2, 20, 150000, 0, 0, "queso");
    assert_eq!(Valuable::Pes((1500, pes)).price(&1000), Some(225000));
    let r = Rubro::build(3, 30, None, "varios");
    assert_eq!(Valuable::Rub((1, r)).price(&1000), None);
}

#[test]
fn venta_total_y_agregado() {
    let mut v = Venta::new(1, None);
    let p = Producto::new(1, vec![1], 150000, 0, 0, "t", "m", "v", Presentacion::Un(1));
    let pes = Pesable::build(2, 20, 100000, 0, 0, "queso");
    v.agregar_producto(Valuable::Prod((1, p.copia())), &1000);
    v.agregar_producto(Valuable::Pes((1250, pes)), &1000);
    assert_eq!(v.monto_total(), 150000 + 125000);
    v.agregar_producto(Valuable::Prod((1, p)), &1000);
    assert_eq!(v.cantidad_productos(), 2);
    assert_eq!(v.monto_total(), 300000 + 125000);
    let r = Rubro::build(3, 30, Some(5000), "varios");
    v.agregar_producto(Valuable::Rub((1, r.copia())), &1000);
    v.agregar_producto(Valuable::Rub((1, r)), &1000);
    assert_eq!(v.cantidad_productos(), 4);
    assert_eq!(v.monto_total(), 300000 + 125000 + 10000);
    let antes = v.monto_total();
    v.incrementar_producto(0, &1000).unwrap();
    v.restar_producto(0, &1000).unwrap();
    assert_eq!(v.monto_total(), antes);
}

#[test]
fn pagos_de_una_venta() {
    let mut v = Venta::new(1, None);
    let p = Producto::new(1, vec![1], 100000, 0, 0, "t", "m", "v", Presentacion::Un(1));
    v.agregar_producto(Valuable::Prod((1, p)), &1000);
    assert_eq!(v.agregar_pago(MedioPago::new("Efectivo", 1), 40000).unwrap(), 60000);
    assert!(!v.cerrada());
    let id = v.pagos()[0].id();
    v.eliminar_pago(id).unwrap();
    assert_eq!(v.monto_pagado(), 0);
    assert_eq!(v.agregar_pago(MedioPago::new("Efectivo", 1), 100000).unwrap(), 0);
    assert!(v.cerrada() && v.paga());
    let filas = v.guardar(true);
    assert!(filas.venta.paga && filas.venta.cliente.is_none());
    assert_eq!(filas.pagos.len(), 1);
    assert_eq!(filas.productos.len(), 1);
    let act = v.save(&vec![7]);
    assert_eq!(act.pagos[0].medio_pago, 7);
    assert!(act.deudas.is_empty());
}

#[test]
fn cuenta_corriente_con_credito() {
    let mut v = Venta::new(1, None);
    let p = Producto::new(1, vec![1], 100000, 0, 0, "t", "m", "v", Presentacion::Un(1));
    v.agregar_producto(Valuable::Prod((1, p)), &1000);
    let cli = Cli::build(5, "Cliente", 123, true, true, 0, Some(500000));
    v.set_cliente(5, Some(cli)).unwrap();
    assert_eq!(v.agregar_pago(MedioPago::new("Cuenta Corriente", 4), 100000).unwrap(), 0);
    assert!(v.cerrada() && !v.paga());
    assert_eq!(*v.pagos()[0].pagado(), 0);
    assert_eq!(*v.pagos()[0].medio_pago().id(), 0);
    let act = v.save(&vec![9]);
    assert_eq!(act.pagos[0].medio_pago, 0);
    assert_eq!(act.deudas.len(), 1);
    assert_eq!(act.cliente, Some(5));
    match v.set_cliente(8, None) {
        Err(AppError::NotFound { objeto, instancia }) => {
            assert_eq!(objeto, "Cliente");
            assert_eq!(instancia, "8");
        },
        otro => panic!("{:?}", otro),
    }
}

#[test]
fn pagar_deuda_general_reparte() {
    let deudas = vec![
        DeudaVenta { id: 1, monto_total: 1000, monto_pagado: 0, pagos: vec![PagoCuenta { id: 10, monto: 600, pagado: 0 }, PagoCuenta { id: 11, monto: 400, pagado: 0 }] },
        DeudaVenta { id: 2, monto_total: 500, monto_pagado: 0, pagos: vec![PagoCuenta { id: 12, monto: 500, pagado: 100 }] },
    ];
    let r = Cli::pagar_deuda_general(deudas, 1200);
    assert_eq!(r.resto, -300);
    assert_eq!(r.pagas, vec![1]);
    assert_eq!(r.deudas[1].pagos[0].pagado, 300);
    let pagado: u64 = r.deudas.iter().flat_map(|d| d.pagos.iter()).map(|p| p.pagado).sum();
    assert_eq!(pagado, 100 + 1200);
}

#[test]
fn deuda_de_un_cliente() {
    let cli = Cli::new(1, "C", 1, true, true, 0, None);
    assert_eq!(cli.get_deuda(&vec![100, 250]), 350);
    assert_eq!(cli.get_deuda(&vec![u64::MAX, 1]), u64::MAX);
    assert!(matches!(Cli::new_to_db("C", 1, true, true, 0, None, true, 2), Err(AppError::ExistingError { .. })));
    assert!(matches!(Cli::pagar_deuda_especifica(1, None), Err(AppError::IncorrectError(m)) if m == "Id inexistente"));
    assert!(matches!(Cli::pagar_deuda_especifica(1, Some((Venta::new(3, None), Some(2)))), Err(AppError::IncorrectError(m)) if m == "Cliente Incorrecto"));
    assert!(Cli::pagar_deuda_especifica(1, Some((Venta::new(3, None), Some(1)))).is_ok());
}

#[test]
fn caja_y_movimientos() {
    let config = Config::default();
    assert!(matches!(Caja::new(None, None, &config, 0), Err(AppError::InicializationError(m)) if m == "Se requiere monto de inicio"));
    let c = Caja::new(None, Some(1000), &config, 5).unwrap();
    assert_eq!(c.id(), 0);
    assert_eq!(c.totales().len(), 0);
    let abierta = Caja::build(3, 1, None, 10, 0, None, None, Vec::new());
    assert_eq!(Caja::new(Some(abierta), None, &config, 9).unwrap().id(), 3);
    let fila = c.hacer_movimiento(&Movimiento::Egreso { descripcion: Some("luz".to_string()), monto: 300 });
    assert!(!fila.tipo && fila.monto == 300 && fila.caja == 0);
    let mut caja = Caja::new(Some(Caja::build(1, 0, Some(1), 50, 0, Some(0), None, Vec::new())), Some(0), &config, 2).unwrap();
    let pagos = vec![Pago::new(MedioPago::new("Efectivo", 1), 700, None), Pago::new(MedioPago::new("Débito", 3), 300, None)];
    caja.update_total(1000, &pagos);
    assert_eq!(caja.ventas_totales(), 1050);
    assert_eq!(caja.totales()[0], ("Efectivo".to_string(), 700));
    assert_eq!(caja.totales()[2], ("Débito".to_string(), 300));
}

#[test]
fn mapeo_de_filas() {
    let caja = Mapper::caja(
        CajaDB { id: 2, inicio: 1, cierre: None, monto_inicio: 0, monto_cierre: None, ventas_totales: 0, cajero: None },
        vec![TotalDB { medio: "Efectivo".to_string(), monto: 5 }, TotalDB { medio: "Débito".to_string(), monto: 6 }, TotalDB { medio: "Efectivo".to_string(), monto: 7 }],
    );
    assert_eq!(caja.totales().len(), 2);
    assert_eq!(caja.totales()[0].1, 7);
    let prod = Mapper::producto(
        ProductoDB { id: 1, precio_venta: 10, porcentaje: 0, precio_costo: 0, tipo: "t".to_string(), marca: "m".to_string(), variedad: "v".to_string(), presentacion: "Kg".to_string(), size: 1500 },
        vec![BigIntDB { int: 44 }],
    ).unwrap();
    assert_eq!(*prod.presentacion(), Presentacion::Kg(1500));
    assert!(matches!(Mapper::pago(PagoDB { id: 1, medio_pago: 2, monto: 3, pagado: 3, venta: 1 }, None), Err(AppError::IncorrectError(_))));
    let rel = Mapper::rel_prod_prov(&RelacionProdProvDB { id: 1, producto: 2, proveedor: 3, codigo: 4 });
    assert_eq!(rel.codigo_interno(), Some(4));
    let venta = Mapper::venta(
        VentaDB { id: 9, monto_total: 100, monto_pagado: 0, cliente: None, cerrada: false, paga: false, pos: true },
        vec![(RelatedProdDB { id: 1, precio: 10, porcentaje: 0, precio_costo: 0, tipo: "t".to_string(), marca: "m".to_string(), variedad: "v".to_string(), presentacion: "Un".to_string(), size: 1000, cantidad: 2 }, vec![])],
        vec![(RelatedPesDB { id: 2, precio_peso: 1, porcentaje: 0, costo_kilo: 0, descripcion: "p".to_string(), cantidad: 500 }, Some(BigIntDB { int: 8 }))],
        vec![],
        vec![(PagoDB { id: 1, medio_pago: 1, monto: 50, pagado: 50, venta: 9 }, Some(MedioPagoDB { id: 1, medio: "Efectivo".to_string() }))],
        None,
        None,
    ).unwrap();
    assert_eq!(venta.cantidad_productos(), 2);
    assert_eq!(venta.pagos().len(), 1);
    let sin_codigo = Mapper::venta(
        VentaDB { id: 9, monto_total: 100, monto_pagado: 0, cliente: None, cerrada: false, paga: false, pos: true },
        vec![],
        vec![],
        vec![(RelatedRubDB { id: 3, descripcion: "r".to_string(), cantidad: 1, precio: 5 }, None)],
        vec![],
        None,
        None,
    );
    assert!(matches!(sin_codigo, Err(AppError::IncorrectError(m)) if m == "No se encontro codigo de pesable"));
}

#[test]
fn consultas_de_carga() {
    let ps = vec![
        Producto::new(1, vec![1, 2], 0, 0, 0, "a", "b", "c", Presentacion::Un(1)),
        Producto::new(2, vec![3], 0, 0, 0, "a", "b", "c", Presentacion::Un(1)),
    ];
    let (codigos, productos) = Db::cargar_todos_los_productos(&ps);
    assert_eq!(codigos.matches("(?, ?)").count(), 3);
    assert_eq!(productos.matches(", (?, ?, ?, ?, ?, ?, ?, ?, ?, ?)").count(), 1);
    let (pes, cod) = Db::cargar_todos_los_pesables(3);
    assert_eq!(pes.matches(", (?, ?, ?, ?, ?, ?)").count(), 2);
    assert_eq!(cod.matches("(?, ?)").count(), 3);
    let vals = vec![
        Valuable::Rub((0, Rubro::build(1, 1, None, "r"))),
        Valuable::Prod((0, ps[0].copia())),
        Valuable::Pes((0, Pesable::build(2, 2, 0, 0, 0, "p"))),
    ];
    let (a, b, c) = Db::cargar_todos_los_valuables(&vals);
    assert_eq!((a.len(), b.len(), c.len()), (1, 1, 1));
    let rel = RelacionProdProv::new(1, 2, Some(3));
    assert_eq!(Db::accion_relacion(&rel, Some(Some(3))), AccionRelacion::Nada);
    assert_eq!(Db::accion_relacion(&rel, Some(None)), AccionRelacion::Actualizar(Some(3)));
    assert_eq!(Db::accion_relacion(&rel, None), AccionRelacion::Insertar);
    let u = User::new("juan", "Juan", 1, "Cajero");
    assert!(matches!(Db::eliminar_usuario(&u, None), Err(AppError::NotFound { instancia, .. }) if instancia == "juan"));
}

#[test]
fn altas_repetidas() {
    assert!(matches!(Proveedor::new_to_db("P", None, true, 1), Err(AppError::ExistingError { .. })));
    assert_eq!(Proveedor::build(1, "P", Some(15)).to_string(), "P 15");
    assert!(matches!(Pesable::new_to_db(77, 1, 1, 1, "d", true, 1), Err(AppError::ExistingError { instancia, .. }) if instancia == "77"));
    let cod = CodeDB { id: 1, codigo: 5, producto: None, pesable: None, rubro: Some(2) };
    assert!(matches!(Rubro::new_to_db(5, None, "d", Some(cod), 1), Err(AppError::IncorrectError(m)) if m == "rubro existente"));
    let cod2 = CodeDB { rubro: None, ..cod };
    assert!(matches!(Rubro::new_to_db(5, None, "d", Some(cod2), 1), Err(AppError::IncorrectError(m)) if m == "existe el codigo pero no corresponde a un rubro"));
    assert!(matches!(User::new_to_db("u", "U", 1, "Admin", true), Err(AppError::IncorrectError(m)) if m == "Usuario existente"));
    let p = Pago::def(MedioPago::new("Efectivo", 1));
    assert_eq!(p.monto(), 0);
    let v = Venta::get_or_new(None, None, 4);
    assert_eq!(*v.id(), 4);
}

#[test]
fn relaciones_cargadas_en_orden() {
    let rels = vec![
        RelacionProdProv::new(1, 2, Some(3)),
        RelacionProdProv::new(1, 2, Some(4)),
        RelacionProdProv::new(5, 2, None),
        RelacionProdProv::new(1, 2, Some(4)),
    ];
    // Before the load the store held code 3 for product 1 and supplier 2, and nothing for 5.
    let iniciales = vec![Some(Some(3)), Some(Some(3)), None, Some(Some(3))];
    assert_eq!(
        Db::cargar_todas_las_relaciones_prod_prov(&rels, &iniciales),
        vec![AccionRelacion::Nada, AccionRelacion::Actualizar(Some(4)), AccionRelacion::Insertar, AccionRelacion::Nada]
    );
}

#[test]
fn editar_y_eliminar_articulos() {
    let bien = Producto::new(7, vec![1], 140000, 4000, 100000, "t", "m", "v", Presentacion::Un(1));
    let mal = Producto::new(8, vec![2], 150000, 4000, 100000, "t", "m", "v", Presentacion::Un(1));
    assert!(matches!(bien.editar(true), Ok(7)));
    assert!(matches!(mal.editar(true), Err(AppError::IncorrectError(m)) if m == "Cálculo de precio incorrecto"));
    assert!(matches!(mal.editar(false), Err(AppError::NotFound { objeto, instancia }) if objeto == "Producto" && instancia == "8"));
    assert!(matches!(bien.eliminar(true), Ok(7)));
    assert!(matches!(bien.eliminar(false), Err(AppError::NotFound { instancia, .. }) if instancia == "7"));
    let pes = Pesable::build(-3, 13, 90000, 5000, 60000, "Queso");
    assert!(matches!(pes.editar(true), Ok(-3)));
    assert!(matches!(pes.eliminar(false), Err(AppError::NotFound { objeto, instancia }) if objeto == "Pesable" && instancia == "-3"));
    let rub = Rubro::build(4, 14, None, "Varios");
    assert!(matches!(rub.editar(true), Ok(4)));
    assert!(matches!(rub.editar(false), Err(AppError::NotFound { objeto, .. }) if objeto == "Rubro"));
    assert!(matches!(rub.eliminar(true), Ok(4)));
}

#[test]
fn redondear_articulos() {
    let p = Producto::new(1, vec![1], 123456, 0, 0, "t", "m", "v", Presentacion::Un(1));
    assert_eq!(*p.redondear(&1000).precio_de_venta(), 123000);
    let r = Rubro::build(2, 2, Some(1550), "r");
    assert_eq!(r.redondear(&100).monto(), Some(1600));
    assert_eq!(Rubro::build(2, 2, None, "r").redondear(&100).monto(), None);
    let v = Valuable::Pes((1500, Pesable::build(3, 3, 12345, 0, 0, "p")));
    match v.redondear(&1000) {
        Valuable::Pes((c, p)) => assert!(c == 1500 && *p.precio_peso() == 12345),
        _ => panic!("se esperaba un pesable"),
    }
}

#[test]
fn hojas_de_estilo() {
    let e = input_style();
    assert!(e == input_style());
    assert!(e.contains("input{") && e.contains("outline: none;") && e.contains("border-radius: 8px;"));
    let s = style();
    assert!(s.contains(".Upper {\n  text-transform: uppercase;\n}"));
    assert!(s.contains(".Lower {\n  text-transform: lowercase;\n}"));
    assert!(s.contains(".Camel {\n  text-transform: capitalize;\n}"));
    for m in [Mayusculas::Upper, Mayusculas::Lower, Mayusculas::Camel] {
        assert!(s.contains(&format!(".{} {{", m.to_string())));
    }
}

#[test]
fn caja_con_medios_repetidos() {
    let medios = vec!["Efectivo".to_string(), "Débito".to_string(), "Efectivo".to_string()];
    let config = Config::build(1000, "Tmv", "Upper", 20, medios);
    let cerrada = Caja::build(1, 0, Some(1), 50, 0, Some(0), None, Vec::new());
    let caja = Caja::new(Some(cerrada), Some(0), &config, 2).unwrap();
    assert_eq!(caja.totales(), &vec![("Efectivo".to_string(), 0), ("Débito".to_string(), 0)]);
}
