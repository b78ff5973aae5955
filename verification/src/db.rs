use vstd::prelude::*;
use crate::caja::{con_total, lema_con_total_unicos, medios_unicos, posicion, vista_totales, Caja, CajaV};
use crate::cliente::{cuenta_de, Cli, CliV, Cliente, ClienteV};
use crate::config::{formato_de_nombre, mayusculas_de_nombre, Config};
use crate::error::AppError;
use crate::pago::{MedioPago, MedioPagoV, Pago, PagoV};
use crate::proveedor::{RelacionProdProv, RelacionProdProvV};
use crate::user::User;
use crate::valuable::{presentacion_de, Pesable, PesableV, Presentacion, Producto, ProductoV, Rubro, RubroV, Valuable, ValuableV};
use crate::venta::{vista_usuario, Venta, VentaV};

verus! {

/// A row holding one big integer.
#[derive(Debug, Clone, Copy, PartialEq, Eq, Structural)]
pub struct BigIntDB {
    pub int: i64,
}

/// A row holding one integer.
#[derive(Debug, Clone, Copy, PartialEq, Eq, Structural)]
pub struct IntDB {
    pub int: i32,
}

/// A row holding one truth value.
#[derive(Debug, Clone, Copy, PartialEq, Eq, Structural)]
pub struct BoolDB {
    pub val: bool,
}

/// A row holding one text.
#[derive(Debug, Clone)]
pub struct StringDB {
    pub string: String,
}

/// A stored means of payment.
#[derive(Debug, Clone)]
pub struct MedioPagoDB {
    pub id: i64,
    pub medio: String,
}

/// A stored bar code, with the article it belongs to.
#[derive(Debug, Clone, Copy, PartialEq, Eq, Structural)]
pub struct CodeDB {
    pub id: i64,
    pub codigo: i64,
    pub producto: Option<i64>,
    pub pesable: Option<i64>,
    pub rubro: Option<i64>,
}

/// A stored user.
#[derive(Debug, Clone)]
pub struct UserDB {
    pub id: i64,
    pub user_id: String,
    pub nombre: String,
    pub pass: i64,
    pub rango: String,
}

/// A stored relation between a product and a supplier.
#[derive(Debug, Clone, Copy, PartialEq, Eq, Structural)]
pub struct RelacionProdProvDB {
    pub id: i64,
    pub producto: i64,
    pub proveedor: i64,
    pub codigo: i64,
}

/// A stored register session; times in seconds, amounts in cents.
#[derive(Debug, Clone)]
pub struct CajaDB {
    pub id: i64,
    pub inicio: i64,
    pub cierre: Option<i64>,
    pub monto_inicio: u64,
    pub monto_cierre: Option<u64>,
    pub ventas_totales: u64,
    pub cajero: Option<String>,
}

/// A stored total of a register session under a means of payment.
#[derive(Debug, Clone)]
pub struct TotalDB {
    pub medio: String,
    pub monto: u64,
}

/// The stored settings.
#[derive(Debug, Clone)]
pub struct ConfigDB {
    pub id: i64,
    pub politica: u64,
    pub formato: String,
    pub mayus: String,
    pub cantidad: u8,
}

/// A stored supplier.
#[derive(Debug, Clone)]
pub struct ProvDB {
    pub id: i32,
    pub nombre: String,
    pub contacto: Option<i64>,
}

/// A stored client.
#[derive(Debug, Clone)]
pub struct ClienteDB {
    pub id: i64,
    pub nombre: String,
    pub dni: i64,
    pub credito: bool,
    pub limite: Option<u64>,
    pub activo: bool,
    pub time: i64,
}

/// A stored product; the size is in thousandths.
#[derive(Debug, Clone)]
pub struct ProductoDB {
    pub id: i64,
    pub precio_venta: u64,
    pub porcentaje: u64,
    pub precio_costo: u64,
    pub tipo: String,
    pub marca: String,
    pub variedad: String,
    pub presentacion: String,
    pub size: u32,
}

/// A product of a stored sale, with the quantity sold.
#[derive(Debug, Clone)]
pub struct RelatedProdDB {
    pub id: i64,
    pub precio: u64,
    pub porcentaje: u64,
    pub precio_costo: u64,
    pub tipo: String,
    pub marca: String,
    pub variedad: String,
    pub presentacion: String,
    pub size: u32,
    pub cantidad: u8,
}

/// An article sold by weight of a stored sale, with the weight sold in grams.
#[derive(Debug, Clone)]
pub struct RelatedPesDB {
    pub id: i64,
    pub precio_peso: u64,
    pub porcentaje: u64,
    pub costo_kilo: u64,
    pub descripcion: String,
    pub cantidad: u32,
}

/// A department of a stored sale, with the units sold and the amount charged.
#[derive(Debug, Clone)]
pub struct RelatedRubDB {
    pub id: i64,
    pub descripcion: String,
    pub cantidad: u8,
    pub precio: u64,
}

/// A stored payment.
#[derive(Debug, Clone, Copy, PartialEq, Eq, Structural)]
pub struct PagoDB {
    pub id: i64,
    pub medio_pago: i64,
    pub monto: u64,
    pub pagado: u64,
    pub venta: i64,
}

/// A stored sale.
#[derive(Debug, Clone, Copy, PartialEq, Eq, Structural)]
pub struct VentaDB {
    pub id: i32,
    pub monto_total: u64,
    pub monto_pagado: u64,
    pub cliente: Option<i64>,
    pub cerrada: bool,
    pub paga: bool,
    pub pos: bool,
}

/// The presentation of a stored product of a sale, when its unit is known.
pub open spec fn presentacion_fila(f: (RelatedProdDB, Vec<BigIntDB>)) -> Option<Presentacion> {
    presentacion_de(f.0.presentacion@, f.0.size)
}

/// `k` is the first stored product of a sale with an unknown unit.
pub open spec fn primera_unidad_invalida(fs: Seq<(RelatedProdDB, Vec<BigIntDB>)>, k: int) -> bool {
    &&& 0 <= k < fs.len()
    &&& presentacion_fila(fs[k]) is None
    &&& forall|j: int| 0 <= j < k ==> (#[trigger] presentacion_fila(fs[j])) is Some
}

/// A stored product of a sale as an item of the sale.
pub open spec fn producto_vendido(f: (RelatedProdDB, Vec<BigIntDB>)) -> ValuableV {
    ValuableV::Prod(f.0.cantidad, ProductoV {
        id: f.0.id,
        codigos_de_barras: f.1@.map_values(|c: BigIntDB| c.int),
        precio_de_venta: f.0.precio,
        porcentaje: f.0.porcentaje,
        precio_de_costo: f.0.precio_costo,
        tipo_producto: f.0.tipo@,
        marca: f.0.marca@,
        variedad: f.0.variedad@,
        presentacion: presentacion_fila(f)->0,
    })
}

/// A stored article sold by weight of a sale, with its code, as an item of the sale.
pub open spec fn pesable_vendido(f: (RelatedPesDB, Option<BigIntDB>)) -> ValuableV {
    ValuableV::Pes(f.0.cantidad, PesableV {
        id: f.0.id,
        codigo: f.1->0.int,
        precio_peso: f.0.precio_peso,
        porcentaje: f.0.porcentaje,
        costo_kilo: f.0.costo_kilo,
        descripcion: f.0.descripcion@,
    })
}

/// A stored department of a sale, with its code, as an item of the sale.
pub open spec fn rubro_vendido(f: (RelatedRubDB, Option<BigIntDB>)) -> ValuableV {
    ValuableV::Rub(f.0.cantidad, RubroV {
        id: f.0.id,
        codigo: f.1->0.int,
        monto: Some(f.0.precio),
        descripcion: f.0.descripcion@,
    })
}

/// A stored payment of a sale, with its means of payment.
pub open spec fn pago_leido(f: (PagoDB, Option<MedioPagoDB>)) -> PagoV {
    PagoV {
        id: f.0.id,
        medio_pago: MedioPagoV { medio: f.1->0.medio@, id: f.1->0.id },
        monto: f.0.monto,
        pagado: f.0.pagado,
    }
}

/// The client of a stored sale: the registered client found, or the final consumer.
pub open spec fn cliente_leido(c: Option<ClienteDB>) -> ClienteV {
    match c {
        Some(f) => ClienteV::Regular(CliV {
            id: f.id,
            nombre: f.nombre@,
            dni: f.dni,
            credito: f.credito,
            activo: f.activo,
            created: f.time,
            limite: cuenta_de(f.limite),
        }),
        None => ClienteV::Final,
    }
}

/// Every row has its second part.
pub open spec fn completas<A, B>(fs: Seq<(A, Option<B>)>) -> bool {
    forall|i: int| 0 <= i < fs.len() ==> (#[trigger] fs[i]).1 is Some
}

/// A payment of a sale to be stored; the store gives it its id.
#[derive(Debug, Clone, Copy, PartialEq, Eq, Structural)]
pub struct NuevoPagoDB {
    pub medio_pago: i64,
    pub monto: u64,
    pub pagado: Option<u64>,
    pub venta: i32,
}

/// A product sold in a sale, to be stored.
#[derive(Debug, Clone, Copy, PartialEq, Eq, Structural)]
pub struct VentaProdDB {
    pub producto: i64,
    pub cantidad: u8,
    pub precio: u64,
    pub venta: i32,
}

/// A department sold in a sale, to be stored; a department without an amount leaves the
/// price unset.
#[derive(Debug, Clone, Copy, PartialEq, Eq, Structural)]
pub struct VentaRubDB {
    pub rubro: i64,
    pub cantidad: u8,
    pub precio: Option<u64>,
    pub venta: i32,
}

/// An article sold by weight in a sale, to be stored; the weight in grams.
#[derive(Debug, Clone, Copy, PartialEq, Eq, Structural)]
pub struct VentaPesDB {
    pub pesable: i64,
    pub cantidad: u32,
    pub precio: u64,
    pub venta: i32,
}

/// A debt of a client for a payment on a sale, to be stored.
#[derive(Debug, Clone, Copy, PartialEq, Eq, Structural)]
pub struct DeudaDB {
    pub cliente: i64,
    pub monto: u64,
}

/// The rows a sale is stored in.
#[derive(Debug, Clone)]
pub struct FilasVenta {
    pub venta: VentaDB,
    pub pagos: Vec<NuevoPagoDB>,
    pub productos: Vec<VentaProdDB>,
    pub rubros: Vec<VentaRubDB>,
    pub pesables: Vec<VentaPesDB>,
}

/// The rows of the products of a sale, in order.
pub open spec fn filas_productos(items: Seq<ValuableV>, venta: i32) -> Seq<VentaProdDB>
    decreases items.len(),
{
    if items.len() == 0 {
        Seq::empty()
    } else {
        let previas = filas_productos(items.drop_last(), venta);
        match items.last() {
            ValuableV::Prod(c, p) => previas.push(VentaProdDB { producto: p.id, cantidad: c, precio: p.precio_de_venta, venta }),
            _ => previas,
        }
    }
}

/// The rows of the departments of a sale, in order.
pub open spec fn filas_rubros(items: Seq<ValuableV>, venta: i32) -> Seq<VentaRubDB>
    decreases items.len(),
{
    if items.len() == 0 {
        Seq::empty()
    } else {
        let previas = filas_rubros(items.drop_last(), venta);
        match items.last() {
            ValuableV::Rub(c, r) => previas.push(VentaRubDB { rubro: r.id, cantidad: c, precio: r.monto, venta }),
            _ => previas,
        }
    }
}

/// The rows of the articles sold by weight of a sale, in order.
pub open spec fn filas_pesables(items: Seq<ValuableV>, venta: i32) -> Seq<VentaPesDB>
    decreases items.len(),
{
    if items.len() == 0 {
        Seq::empty()
    } else {
        let previas = filas_pesables(items.drop_last(), venta);
        match items.last() {
            ValuableV::Pes(c, p) => previas.push(VentaPesDB { pesable: p.id, cantidad: c, precio: p.precio_peso, venta }),
            _ => previas,
        }
    }
}

/// The row stored for a line of a product: the line's product, its quantity and its price.
pub open spec fn fila_de_producto(x: ValuableV, f: VentaProdDB, venta: i32) -> bool {
    x matches ValuableV::Prod(c, a) && f == (VentaProdDB { producto: a.id, cantidad: c, precio: a.precio_de_venta, venta })
}

/// Storing a sale keeps every line of a product with its quantity: each such line has its
/// row, and each row stands for one such line.
pub proof fn lema_filas_productos(items: Seq<ValuableV>, venta: i32)
    ensures
        forall|i: int| 0 <= i < items.len() && (#[trigger] items[i] is Prod)
            ==> exists|k: int| 0 <= k < filas_productos(items, venta).len() && fila_de_producto(items[i], #[trigger] filas_productos(items, venta)[k], venta),
        forall|k: int| #![trigger filas_productos(items, venta)[k]] 0 <= k < filas_productos(items, venta).len()
            ==> exists|i: int| #![trigger items[i]] 0 <= i < items.len() && fila_de_producto(items[i], filas_productos(items, venta)[k], venta),
    decreases items.len(),
{
    if items.len() > 0 {
        let d = items.drop_last();
        lema_filas_productos(d, venta);
        let previas = filas_productos(d, venta);
        let filas = filas_productos(items, venta);
        assert forall|i: int| 0 <= i < items.len() && (#[trigger] items[i] is Prod)
            implies exists|k: int| 0 <= k < filas.len() && fila_de_producto(items[i], #[trigger] filas[k], venta) by {
            if i < items.len() - 1 {
                assert(d[i] == items[i]);
                let k = choose|k: int| 0 <= k < previas.len() && fila_de_producto(d[i], #[trigger] previas[k], venta);
                assert(filas[k] == previas[k]);
            } else {
                assert(filas[previas.len() as int] == filas.last());
                assert(fila_de_producto(items[i], filas[previas.len() as int], venta));
            }
        }
        assert forall|k: int| #![trigger filas[k]] 0 <= k < filas.len()
            implies exists|i: int| #![trigger items[i]] 0 <= i < items.len() && fila_de_producto(items[i], filas[k], venta) by {
            if k < previas.len() {
                assert(filas[k] == previas[k]);
                let i = choose|i: int| #![trigger d[i]] 0 <= i < d.len() && fila_de_producto(d[i], previas[k], venta);
                assert(items[i] == d[i]);
            } else {
                let i = items.len() - 1;
                assert(fila_de_producto(items[i], filas[k], venta));
            }
        }
    }
}

/// The row stored for a line of a department: the line's department, its quantity and its price.
pub open spec fn fila_de_rubro(x: ValuableV, f: VentaRubDB, venta: i32) -> bool {
    x matches ValuableV::Rub(c, a) && f == (VentaRubDB { rubro: a.id, cantidad: c, precio: a.monto, venta })
}

/// Storing a sale keeps every line of a department with its quantity: each such line has its
/// row, and each row stands for one such line.
pub proof fn lema_filas_rubros(items: Seq<ValuableV>, venta: i32)
    ensures
        forall|i: int| 0 <= i < items.len() && (#[trigger] items[i] is Rub)
            ==> exists|k: int| 0 <= k < filas_rubros(items, venta).len() && fila_de_rubro(items[i], #[trigger] filas_rubros(items, venta)[k], venta),
        forall|k: int| #![trigger filas_rubros(items, venta)[k]] 0 <= k < filas_rubros(items, venta).len()
            ==> exists|i: int| #![trigger items[i]] 0 <= i < items.len() && fila_de_rubro(items[i], filas_rubros(items, venta)[k], venta),
    decreases items.len(),
{
    if items.len() > 0 {
        let d = items.drop_last();
        lema_filas_rubros(d, venta);
        let previas = filas_rubros(d, venta);
        let filas = filas_rubros(items, venta);
        assert forall|i: int| 0 <= i < items.len() && (#[trigger] items[i] is Rub)
            implies exists|k: int| 0 <= k < filas.len() && fila_de_rubro(items[i], #[trigger] filas[k], venta) by {
            if i < items.len() - 1 {
                assert(d[i] == items[i]);
                let k = choose|k: int| 0 <= k < previas.len() && fila_de_rubro(d[i], #[trigger] previas[k], venta);
                assert(filas[k] == previas[k]);
            } else {
                assert(filas[previas.len() as int] == filas.last());
                assert(fila_de_rubro(items[i], filas[previas.len() as int], venta));
            }
        }
        assert forall|k: int| #![trigger filas[k]] 0 <= k < filas.len()
            implies exists|i: int| #![trigger items[i]] 0 <= i < items.len() && fila_de_rubro(items[i], filas[k], venta) by {
            if k < previas.len() {
                assert(filas[k] == previas[k]);
                let i = choose|i: int| #![trigger d[i]] 0 <= i < d.len() && fila_de_rubro(d[i], previas[k], venta);
                assert(items[i] == d[i]);
            } else {
                let i = items.len() - 1;
                assert(fila_de_rubro(items[i], filas[k], venta));
            }
        }
    }
}

/// The row stored for a line of an article sold by weight: the line's article, its quantity and its price.
pub open spec fn fila_de_pesable(x: ValuableV, f: VentaPesDB, venta: i32) -> bool {
    x matches ValuableV::Pes(c, a) && f == (VentaPesDB { pesable: a.id, cantidad: c, precio: a.precio_peso, venta })
}

/// Storing a sale keeps every line of an article sold by weight with its quantity: each such line has its
/// row, and each row stands for one such line.
pub proof fn lema_filas_pesables(items: Seq<ValuableV>, venta: i32)
    ensures
        forall|i: int| 0 <= i < items.len() && (#[trigger] items[i] is Pes)
            ==> exists|k: int| 0 <= k < filas_pesables(items, venta).len() && fila_de_pesable(items[i], #[trigger] filas_pesables(items, venta)[k], venta),
        forall|k: int| #![trigger filas_pesables(items, venta)[k]] 0 <= k < filas_pesables(items, venta).len()
            ==> exists|i: int| #![trigger items[i]] 0 <= i < items.len() && fila_de_pesable(items[i], filas_pesables(items, venta)[k], venta),
    decreases items.len(),
{
    if items.len() > 0 {
        let d = items.drop_last();
        lema_filas_pesables(d, venta);
        let previas = filas_pesables(d, venta);
        let filas = filas_pesables(items, venta);
        assert forall|i: int| 0 <= i < items.len() && (#[trigger] items[i] is Pes)
            implies exists|k: int| 0 <= k < filas.len() && fila_de_pesable(items[i], #[trigger] filas[k], venta) by {
            if i < items.len() - 1 {
                assert(d[i] == items[i]);
                let k = choose|k: int| 0 <= k < previas.len() && fila_de_pesable(d[i], #[trigger] previas[k], venta);
                assert(filas[k] == previas[k]);
            } else {
                assert(filas[previas.len() as int] == filas.last());
                assert(fila_de_pesable(items[i], filas[previas.len() as int], venta));
            }
        }
        assert forall|k: int| #![trigger filas[k]] 0 <= k < filas.len()
            implies exists|i: int| #![trigger items[i]] 0 <= i < items.len() && fila_de_pesable(items[i], filas[k], venta) by {
            if k < previas.len() {
                assert(filas[k] == previas[k]);
                let i = choose|i: int| #![trigger d[i]] 0 <= i < d.len() && fila_de_pesable(d[i], previas[k], venta);
                assert(items[i] == d[i]);
            } else {
                let i = items.len() - 1;
                assert(fila_de_pesable(items[i], filas[k], venta));
            }
        }
    }
}

/// The row of a payment of a sale.
pub open spec fn fila_pago(p: PagoV, venta: i32) -> NuevoPagoDB {
    NuevoPagoDB { medio_pago: p.medio_pago.id, monto: p.monto, pagado: Some(p.pagado), venta }
}

/// The row of a sale at a position: a sale of the final consumer counts as paid and has
/// no client.
pub open spec fn fila_venta(v: VentaV, pos: bool) -> VentaDB {
    VentaDB {
        id: v.id,
        monto_total: v.monto_total,
        monto_pagado: v.monto_pagado,
        cliente: match v.cliente {
            ClienteV::Final => None,
            ClienteV::Regular(c) => Some(c.id),
        },
        cerrada: v.cerrada,
        paga: match v.cliente {
            ClienteV::Final => true,
            ClienteV::Regular(_) => v.paga,
        },
        pos,
    }
}

/// What storing a sale changes: the amounts and state of its stored row, its client when
/// it is a registered one (the stored client is kept otherwise), and the rows of its
/// payments, of the debts they leave a registered client, and of its items.
#[derive(Debug, Clone)]
pub struct ActualizacionVenta {
    pub monto_total: u64,
    pub monto_pagado: u64,
    pub cerrada: bool,
    pub paga: bool,
    pub cliente: Option<i64>,
    pub pagos: Vec<NuevoPagoDB>,
    pub deudas: Vec<DeudaDB>,
    pub productos: Vec<VentaProdDB>,
    pub rubros: Vec<VentaRubDB>,
    pub pesables: Vec<VentaPesDB>,
}

/// The row of a payment when a sale is stored: a payment on a current account goes under
/// the current account's id, any other under the id found for its means of payment.
pub open spec fn fila_pago_guardado(p: PagoV, medio: i64, venta: i32) -> NuevoPagoDB {
    NuevoPagoDB {
        medio_pago: if p.medio_pago.medio == crate::venta::CUENTA@ { 0 } else { medio },
        monto: p.monto,
        pagado: None,
        venta,
    }
}

/// The text repeated `k` times.
pub open spec fn repetido(s: Seq<char>, k: nat) -> Seq<char>
    decreases k,
{
    if k == 0 { Seq::empty() } else { repetido(s, (k - 1) as nat) + s }
}

/// The number of bar codes of the products.
pub open spec fn total_codigos(ps: Seq<ProductoV>) -> nat
    decreases ps.len(),
{
    if ps.len() == 0 { 0 } else { total_codigos(ps.drop_last()) + ps.last().codigos_de_barras.len() }
}

pub const INSERTAR_CODIGOS_DE_PRODUCTOS: &'static str = "insert into codigos (codigo, producto) values (?, ?)";
pub const INSERTAR_PRODUCTOS: &'static str = "insert into productos (id, precio_venta, porcentaje, precio_costo, tipo, marca, variedad, presentacion, size, updated_at) values (?, ?, ?, ?, ?, ?, ?, ?, ?, ?)";
pub const FILA_CODIGO: &'static str = ", (?, ?)";
pub const FILA_PRODUCTO: &'static str = ", (?, ?, ?, ?, ?, ?, ?, ?, ?, ?)";
pub const INSERTAR_PESABLES: &'static str = "insert into pesables (id, precio_peso, porcentaje, costo_kilo, descripcion, updated_at) values (?, ?, ?, ?, ?, ?)";
pub const INSERTAR_CODIGOS_DE_PESABLES: &'static str = "insert into codigos (codigo, pesable) values (?, ?)";
pub const FILA_PESABLE: &'static str = ", (?, ?, ?, ?, ?, ?)";
pub const INSERTAR_RUBROS: &'static str = "insert into rubros (id, descripcion, updated_at) values (?, ?, ?)";
pub const INSERTAR_CODIGOS_DE_RUBROS: &'static str = "insert into codigos (codigo, rubro) values (?, ?)";
pub const FILA_RUBRO: &'static str = ", (?, ?, ?)";

/// What storing a relation between a product and a supplier does, given what is stored.
#[derive(Debug, Clone, Copy, PartialEq, Eq, Structural)]
pub enum AccionRelacion {
    /// The stored relation already has the code.
    Nada,
    /// The stored relation takes the new code.
    Actualizar(Option<i64>),
    /// The relation is stored anew.
    Insertar,
}

/// The products among the articles, in order.
pub open spec fn solo_productos(vs: Seq<ValuableV>) -> Seq<ProductoV>
    decreases vs.len(),
{
    if vs.len() == 0 {
        Seq::empty()
    } else {
        match vs.last() {
            ValuableV::Prod(_, p) => solo_productos(vs.drop_last()).push(p),
            _ => solo_productos(vs.drop_last()),
        }
    }
}

/// The articles sold by weight among the articles, in order.
pub open spec fn solo_pesables(vs: Seq<ValuableV>) -> Seq<PesableV>
    decreases vs.len(),
{
    if vs.len() == 0 {
        Seq::empty()
    } else {
        match vs.last() {
            ValuableV::Pes(_, p) => solo_pesables(vs.drop_last()).push(p),
            _ => solo_pesables(vs.drop_last()),
        }
    }
}

/// The departments among the articles, in order.
pub open spec fn solo_rubros(vs: Seq<ValuableV>) -> Seq<RubroV>
    decreases vs.len(),
{
    if vs.len() == 0 {
        Seq::empty()
    } else {
        match vs.last() {
            ValuableV::Rub(_, r) => solo_rubros(vs.drop_last()).push(r),
            _ => solo_rubros(vs.drop_last()),
        }
    }
}

/// Loads articles and suppliers into the store.
pub struct Db;

/// Turns stored rows into the values of the point of sale.
pub struct Mapper;

/// The totals read from the stored totals, in order.
pub open spec fn totales_leidos(filas: Seq<TotalDB>) -> Seq<(Seq<char>, u64)>
    decreases filas.len(),
{
    if filas.len() == 0 {
        Seq::empty()
    } else {
        con_total(totales_leidos(filas.drop_last()), filas.last().medio@, filas.last().monto)
    }
}

/// The totals read never hold a means of payment twice.
proof fn lema_totales_leidos_unicos(filas: Seq<TotalDB>)
    ensures
        medios_unicos(totales_leidos(filas)),
    decreases filas.len(),
{
    if filas.len() > 0 {
        lema_totales_leidos_unicos(filas.drop_last());
        lema_con_total_unicos(totales_leidos(filas.drop_last()), filas.last().medio@, filas.last().monto);
    }
}

impl Mapper {
    /// The relation of a stored product with its supplier and the supplier's code.
    pub fn rel_prod_prov(rel: &RelacionProdProvDB) -> (res: RelacionProdProv)
        ensures
            res@ == (RelacionProdProvV { id_producto: rel.producto, id_proveedor: rel.proveedor, codigo_interno: Some(rel.codigo) }),
    {
        RelacionProdProv::new(rel.producto, rel.proveedor, Some(rel.codigo))
    }

    /// The register session of a stored row with its stored totals.
    pub fn caja(caja: CajaDB, totales: Vec<TotalDB>) -> (res: Caja)
        ensures
            res@ == (CajaV {
                id: caja.id,
                inicio: caja.inicio,
                cierre: caja.cierre,
                ventas_totales: caja.ventas_totales,
                monto_inicio: caja.monto_inicio,
                monto_cierre: caja.monto_cierre,
                cajero: crate::caja::vista_cajero(caja.cajero),
                totales: totales_leidos(totales@),
            }),
            medios_unicos(res@.totales),
    {
        proof {
            lema_totales_leidos_unicos(totales@);
        }
        let mut t: Vec<(String, u64)> = Vec::new();
        let mut i: usize = 0;
        while i < totales.len()
            invariant
                i <= totales@.len(),
                vista_totales(t@) == totales_leidos(totales@.take(i as int)),
            decreases totales@.len() - i,
        {
            assert(totales@.take(i + 1).drop_last() == totales@.take(i as int));
            let medio = totales[i].medio.clone();
            let monto = totales[i].monto;
            let ghost antes = vista_totales(t@);
            match crate::caja::buscar(&t, medio.as_str()) {
                Some(k) => {
                    t.set(k, (medio, monto));
                    proof {
                        assert(vista_totales(t@) =~= antes.update(k as int, (totales@[i as int].medio@, monto)));
                    }
                },
                None => {
                    t.push((medio, monto));
                    proof {
                        assert(vista_totales(t@) =~= antes.push((totales@[i as int].medio@, monto)));
                    }
                },
            }
            i += 1;
        }
        assert(totales@.take(totales@.len() as int) == totales@);
        Caja::build(
            caja.id,
            caja.inicio,
            caja.cierre,
            caja.ventas_totales,
            caja.monto_inicio,
            caja.monto_cierre,
            caja.cajero,
            t,
        )
    }

    /// The settings of the stored row with the stored means of payment, in order.
    pub fn config(config: ConfigDB, medios: Vec<MedioPagoDB>) -> (res: Config)
        requires
            formato_de_nombre(config.formato@) is Some,
            mayusculas_de_nombre(config.mayus@) is Some,
        ensures
            res.politica_spec() == config.politica,
            Some(res.formato_spec()) == formato_de_nombre(config.formato@),
            Some(res.mayus_spec()) == mayusculas_de_nombre(config.mayus@),
            res.cantidad_spec() == config.cantidad,
            res.medios_spec() == medios@.map_values(|m: MedioPagoDB| m.medio@),
    {
        let mut nombres: Vec<String> = Vec::new();
        let mut i: usize = 0;
        while i < medios.len()
            invariant
                i <= medios@.len(),
                nombres@.map_values(|m: String| m@) == medios@.take(i as int).map_values(|m: MedioPagoDB| m.medio@),
            decreases medios@.len() - i,
        {
            let ghost previos = nombres@.map_values(|m: String| m@);
            nombres.push(medios[i].medio.clone());
            proof {
                assert(nombres@.map_values(|m: String| m@) =~= previos.push(medios@[i as int].medio@));
                assert(medios@.take(i + 1).drop_last() =~= medios@.take(i as int));
                assert(nombres@.map_values(|m: String| m@) =~= medios@.take(i + 1).map_values(|m: MedioPagoDB| m.medio@));
            }
            i += 1;
        }
        assert(medios@.take(medios@.len() as int) == medios@);
        Config::build(config.politica, config.formato.as_str(), config.mayus.as_str(), config.cantidad, nombres)
    }

    /// The product of a stored row with its stored bar codes; a unit other than Gr, Un,
    /// Lt, Ml, CC and Kg is an error.
    pub fn producto(prod: ProductoDB, codigos: Vec<BigIntDB>) -> (res: Result<Producto, AppError>)
        ensures
            match presentacion_de(prod.presentacion@, prod.size) {
                Some(p) => res matches Ok(r) && r@ == (ProductoV {
                    id: prod.id,
                    codigos_de_barras: codigos@.map_values(|c: BigIntDB| c.int),
                    precio_de_venta: prod.precio_venta,
                    porcentaje: prod.porcentaje,
                    precio_de_costo: prod.precio_costo,
                    tipo_producto: prod.tipo@,
                    marca: prod.marca@,
                    variedad: prod.variedad@,
                    presentacion: p,
                }),
                None => res matches Err(AppError::SizeSelection(s)) && s@ == prod.presentacion@,
            },
    {
        let presentacion = match Presentacion::build(prod.presentacion.as_str(), prod.size) {
            Ok(p) => p,
            Err(e) => {
                return Err(e);
            },
        };
        let cs = enteros(&codigos);
        Ok(Producto::new(
            prod.id,
            cs,
            prod.precio_venta,
            prod.porcentaje,
            prod.precio_costo,
            prod.tipo.as_str(),
            prod.marca.as_str(),
            prod.variedad.as_str(),
            presentacion,
        ))
    }

    /// The payment of a stored row with its stored means of payment; a payment whose means
    /// was not found is an error.
    pub fn pago(pago: PagoDB, medio: Option<MedioPagoDB>) -> (res: Result<Pago, AppError>)
        ensures
            match medio {
                Some(m) => res matches Ok(p) && p@ == (PagoV {
                    id: pago.id,
                    medio_pago: MedioPagoV { medio: m.medio@, id: m.id },
                    monto: pago.monto,
                    pagado: pago.pagado,
                }),
                None => res matches Err(AppError::IncorrectError(s)) && s@ == "No se encontro el medio pago correspondiente"@,
            },
    {
        match medio {
            Some(m) => Ok(Pago::build(pago.id, MedioPago::build(m.medio.as_str(), m.id), pago.monto, pago.pagado)),
            None => Err(AppError::IncorrectError("No se encontro el medio pago correspondiente".to_string())),
        }
    }
    /// The sale of a stored row, with its stored products, articles sold by weight,
    /// departments (each with its code), payments (each with its means of payment) and
    /// client, sold by `user`. The items come products first, then articles sold by weight,
    /// then departments. A product with an unknown unit, an article or department without
    /// a code, and a payment without its means, in that order, are errors.
    pub fn venta(
        venta: VentaDB,
        productos: Vec<(RelatedProdDB, Vec<BigIntDB>)>,
        pesables: Vec<(RelatedPesDB, Option<BigIntDB>)>,
        rubros: Vec<(RelatedRubDB, Option<BigIntDB>)>,
        pagos: Vec<(PagoDB, Option<MedioPagoDB>)>,
        cliente: Option<ClienteDB>,
        user: Option<User>,
    ) -> (res: Result<Venta, AppError>)
        ensures
            if exists|k: int| #[trigger] primera_unidad_invalida(productos@, k) {
                exists|k: int| #[trigger] primera_unidad_invalida(productos@, k)
                    && (res matches Err(AppError::SizeSelection(s)) && s@ == productos@[k].0.presentacion@)
            } else if !completas(pesables@) || !completas(rubros@) {
                res matches Err(AppError::IncorrectError(m)) && m@ == "No se encontro codigo de pesable"@
            } else if !completas(pagos@) {
                res matches Err(AppError::IncorrectError(m)) && m@ == "no es encontro medio_pago de pago"@
            } else {
                res matches Ok(v) && v@ == (VentaV {
                    id: venta.id,
                    monto_total: venta.monto_total,
                    productos: productos@.map_values(|f: (RelatedProdDB, Vec<BigIntDB>)| producto_vendido(f))
                        + pesables@.map_values(|f: (RelatedPesDB, Option<BigIntDB>)| pesable_vendido(f))
                        + rubros@.map_values(|f: (RelatedRubDB, Option<BigIntDB>)| rubro_vendido(f)),
                    pagos: pagos@.map_values(|f: (PagoDB, Option<MedioPagoDB>)| pago_leido(f)),
                    monto_pagado: venta.monto_pagado,
                    vendedor: vista_usuario(user),
                    cliente: cliente_leido(cliente),
                    paga: venta.paga,
                    cerrada: venta.cerrada,
                })
            },
    {
        let mut items = match productos_vendidos(&productos) {
            Ok(v) => v,
            Err(e) => {
                return Err(e);
            },
        };
        proof {
            if exists|k: int| #[trigger] primera_unidad_invalida(productos@, k) {
                let k = choose|k: int| #[trigger] primera_unidad_invalida(productos@, k);
                assert(presentacion_fila(productos@[k]) is Some);
            }
        }
        let mut pes = match pesables_vendidos(&pesables) {
            Some(v) => v,
            None => {
                return Err(AppError::IncorrectError("No se encontro codigo de pesable".to_string()));
            },
        };
        let mut rubs = match rubros_vendidos(&rubros) {
            Some(v) => v,
            None => {
                return Err(AppError::IncorrectError("No se encontro codigo de pesable".to_string()));
            },
        };
        let ps = match pagos_leidos(&pagos) {
            Some(v) => v,
            None => {
                return Err(AppError::IncorrectError("no es encontro medio_pago de pago".to_string()));
            },
        };
        let ghost a = items@.map_values(|x: Valuable| x@);
        let ghost b = pes@.map_values(|x: Valuable| x@);
        let ghost c = rubs@.map_values(|x: Valuable| x@);
        items.append(&mut pes);
        items.append(&mut rubs);
        assert(items@.map_values(|x: Valuable| x@) =~= a + b + c);
        let cli = match cliente {
            Some(f) => Cliente::Regular(Cli::build(f.id, f.nombre.as_str(), f.dni, f.credito, f.activo, f.time, f.limite)),
            None => Cliente::Final,
        };
        Ok(Venta::build(venta.id, venta.monto_total, items, ps, venta.monto_pagado, user, cli, venta.paga, venta.cerrada))
    }
}

/// The integers of rows holding one.
fn enteros(filas: &Vec<BigIntDB>) -> (res: Vec<i64>)
    ensures
        res@ == filas@.map_values(|c: BigIntDB| c.int),
{
    let mut res: Vec<i64> = Vec::new();
    let mut i: usize = 0;
    while i < filas.len()
        invariant
            i <= filas@.len(),
            res@ == filas@.take(i as int).map_values(|c: BigIntDB| c.int),
        decreases filas@.len() - i,
    {
        res.push(filas[i].int);
        proof {
            assert(res@ =~= filas@.take(i + 1).map_values(|c: BigIntDB| c.int));
        }
        i += 1;
    }
    assert(filas@.take(filas@.len() as int) == filas@);
    res
}

/// The products of a stored sale as items, up to the first with an unknown unit.
fn productos_vendidos(fs: &Vec<(RelatedProdDB, Vec<BigIntDB>)>) -> (res: Result<Vec<Valuable>, AppError>)
    ensures
        match res {
            Ok(v) => (forall|j: int| 0 <= j < fs@.len() ==> (#[trigger] presentacion_fila(fs@[j])) is Some)
                && v@.map_values(|x: Valuable| x@) == fs@.map_values(|f: (RelatedProdDB, Vec<BigIntDB>)| producto_vendido(f)),
            Err(e) => exists|k: int| #[trigger] primera_unidad_invalida(fs@, k)
                && (e matches AppError::SizeSelection(s) && s@ == fs@[k].0.presentacion@),
        },
{
    let mut res: Vec<Valuable> = Vec::new();
    let mut i: usize = 0;
    while i < fs.len()
        invariant
            i <= fs@.len(),
            forall|j: int| 0 <= j < i ==> (#[trigger] presentacion_fila(fs@[j])) is Some,
            res@.map_values(|x: Valuable| x@) == fs@.take(i as int).map_values(|f: (RelatedProdDB, Vec<BigIntDB>)| producto_vendido(f)),
        decreases fs@.len() - i,
    {
        let f = &fs[i];
        match Mapper::producto(
            ProductoDB {
                id: f.0.id,
                precio_venta: f.0.precio,
                porcentaje: f.0.porcentaje,
                precio_costo: f.0.precio_costo,
                tipo: f.0.tipo.clone(),
                marca: f.0.marca.clone(),
                variedad: f.0.variedad.clone(),
                presentacion: f.0.presentacion.clone(),
                size: f.0.size,
            },
            f.1.clone(),
        ) {
            Ok(p) => {
                let ghost previos = res@.map_values(|x: Valuable| x@);
                res.push(Valuable::Prod((f.0.cantidad, p)));
                proof {
                    assert(res@.map_values(|x: Valuable| x@) =~= previos.push(producto_vendido(fs@[i as int])));
                    assert(fs@.take(i + 1).map_values(|f: (RelatedProdDB, Vec<BigIntDB>)| producto_vendido(f))
                        =~= fs@.take(i as int).map_values(|f: (RelatedProdDB, Vec<BigIntDB>)| producto_vendido(f)).push(producto_vendido(fs@[i as int])));
                }
            },
            Err(e) => {
                assert(primera_unidad_invalida(fs@, i as int));
                return Err(e);
            },
        }
        i += 1;
    }
    assert(fs@.take(fs@.len() as int) == fs@);
    Ok(res)
}

/// The articles sold by weight of a stored sale as items; none when one has no code.
fn pesables_vendidos(fs: &Vec<(RelatedPesDB, Option<BigIntDB>)>) -> (res: Option<Vec<Valuable>>)
    ensures
        match res {
            Some(v) => completas(fs@)
                && v@.map_values(|x: Valuable| x@) == fs@.map_values(|f: (RelatedPesDB, Option<BigIntDB>)| pesable_vendido(f)),
            None => !completas(fs@),
        },
{
    let mut res: Vec<Valuable> = Vec::new();
    let mut i: usize = 0;
    while i < fs.len()
        invariant
            i <= fs@.len(),
            forall|j: int| 0 <= j < i ==> (#[trigger] fs@[j]).1 is Some,
            res@.map_values(|x: Valuable| x@) == fs@.take(i as int).map_values(|f: (RelatedPesDB, Option<BigIntDB>)| pesable_vendido(f)),
        decreases fs@.len() - i,
    {
        let f = &fs[i];
        match &f.1 {
            Some(c) => {
                let ghost previos = res@.map_values(|x: Valuable| x@);
                let p = Pesable::build(f.0.id, c.int, f.0.precio_peso, f.0.porcentaje, f.0.costo_kilo, f.0.descripcion.as_str());
                res.push(Valuable::Pes((f.0.cantidad, p)));
                proof {
                    assert(res@.map_values(|x: Valuable| x@) =~= previos.push(pesable_vendido(fs@[i as int])));
                    assert(fs@.take(i + 1).map_values(|f: (RelatedPesDB, Option<BigIntDB>)| pesable_vendido(f))
                        =~= fs@.take(i as int).map_values(|f: (RelatedPesDB, Option<BigIntDB>)| pesable_vendido(f)).push(pesable_vendido(fs@[i as int])));
                }
            },
            None => {
                return None;
            },
        }
        i += 1;
    }
    assert(fs@.take(fs@.len() as int) == fs@);
    Some(res)
}

/// The departments of a stored sale as items; none when one has no code.
fn rubros_vendidos(fs: &Vec<(RelatedRubDB, Option<BigIntDB>)>) -> (res: Option<Vec<Valuable>>)
    ensures
        match res {
            Some(v) => completas(fs@)
                && v@.map_values(|x: Valuable| x@) == fs@.map_values(|f: (RelatedRubDB, Option<BigIntDB>)| rubro_vendido(f)),
            None => !completas(fs@),
        },
{
    let mut res: Vec<Valuable> = Vec::new();
    let mut i: usize = 0;
    while i < fs.len()
        invariant
            i <= fs@.len(),
            forall|j: int| 0 <= j < i ==> (#[trigger] fs@[j]).1 is Some,
            res@.map_values(|x: Valuable| x@) == fs@.take(i as int).map_values(|f: (RelatedRubDB, Option<BigIntDB>)| rubro_vendido(f)),
        decreases fs@.len() - i,
    {
        let f = &fs[i];
        match &f.1 {
            Some(c) => {
                let ghost previos = res@.map_values(|x: Valuable| x@);
                let r = Rubro::build(f.0.id, c.int, Some(f.0.precio), f.0.descripcion.as_str());
                res.push(Valuable::Rub((f.0.cantidad, r)));
                proof {
                    assert(res@.map_values(|x: Valuable| x@) =~= previos.push(rubro_vendido(fs@[i as int])));
                    assert(fs@.take(i + 1).map_values(|f: (RelatedRubDB, Option<BigIntDB>)| rubro_vendido(f))
                        =~= fs@.take(i as int).map_values(|f: (RelatedRubDB, Option<BigIntDB>)| rubro_vendido(f)).push(rubro_vendido(fs@[i as int])));
                }
            },
            None => {
                return None;
            },
        }
        i += 1;
    }
    assert(fs@.take(fs@.len() as int) == fs@);
    Some(res)
}

/// The payments of a stored sale; none when the means of one was not found.
fn pagos_leidos(fs: &Vec<(PagoDB, Option<MedioPagoDB>)>) -> (res: Option<Vec<Pago>>)
    ensures
        match res {
            Some(v) => completas(fs@)
                && v@.map_values(|x: Pago| x@) == fs@.map_values(|f: (PagoDB, Option<MedioPagoDB>)| pago_leido(f)),
            None => !completas(fs@),
        },
{
    let mut res: Vec<Pago> = Vec::new();
    let mut i: usize = 0;
    while i < fs.len()
        invariant
            i <= fs@.len(),
            forall|j: int| 0 <= j < i ==> (#[trigger] fs@[j]).1 is Some,
            res@.map_values(|x: Pago| x@) == fs@.take(i as int).map_values(|f: (PagoDB, Option<MedioPagoDB>)| pago_leido(f)),
        decreases fs@.len() - i,
    {
        let f = &fs[i];
        match &f.1 {
            Some(m) => {
                let ghost previos = res@.map_values(|x: Pago| x@);
                let p = Pago::build(f.0.id, MedioPago::build(m.medio.as_str(), m.id), f.0.monto, f.0.pagado);
                res.push(p);
                proof {
                    assert(res@.map_values(|x: Pago| x@) =~= previos.push(pago_leido(fs@[i as int])));
                    assert(fs@.take(i + 1).map_values(|f: (PagoDB, Option<MedioPagoDB>)| pago_leido(f))
                        =~= fs@.take(i as int).map_values(|f: (PagoDB, Option<MedioPagoDB>)| pago_leido(f)).push(pago_leido(fs@[i as int])));
                }
            },
            None => {
                return None;
            },
        }
        i += 1;
    }
    assert(fs@.take(fs@.len() as int) == fs@);
    Some(res)
}

/// Appends `fila` to `s` `k` times.
fn repetir(s: &mut String, fila: &str, k: usize)
    ensures
        final(s)@ == old(s)@ + repetido(fila@, k as nat),
{
    let mut i: usize = 0;
    while i < k
        invariant
            i <= k,
            s@ == old(s)@ + repetido(fila@, i as nat),
        decreases k - i,
    {
        s.append(fila);
        proof {
            assert(old(s)@ + repetido(fila@, i as nat) + fila@ =~= old(s)@ + repetido(fila@, (i + 1) as nat));
        }
        i += 1;
    }
}

impl Db {
    /// The statements that store products and their bar codes in one go: one row of
    /// products per product, and for the codes the rows of the first product (at least one)
    /// and those of each product after it. Every row of products has a value for each of
    /// its ten columns.
    pub fn cargar_todos_los_productos(productos: &Vec<Producto>) -> (res: (String, String))
        requires
            productos@.len() >= 1,
            total_codigos(productos@.map_values(|p: Producto| p@)) <= usize::MAX,
        ensures
            ({
                let ps = productos@.map_values(|p: Producto| p@);
                let primeros = ps[0].codigos_de_barras.len();
                let extra = if primeros >= 1 { (primeros - 1) as nat } else { 0 };
                &&& res.0@ == INSERTAR_CODIGOS_DE_PRODUCTOS@ + repetido(FILA_CODIGO@, extra + (total_codigos(ps) - primeros) as nat)
                &&& res.1@ == INSERTAR_PRODUCTOS@ + repetido(FILA_PRODUCTO@, (ps.len() - 1) as nat)
            }),
    {
        let ghost ps = productos@.map_values(|p: Producto| p@);
        let primeros = productos[0].codigos_de_barras().len();
        let mut filas_codigos: usize = if primeros >= 1 { primeros - 1 } else { 0 };
        proof {
            lema_total_codigos_prefijo(ps, 1);
            assert(ps.take(1).drop_last() =~= Seq::<ProductoV>::empty());
            assert(ps.take(1).last() == ps[0]);
            assert(ps[0] == productos@[0]@);
            assert(total_codigos(ps.take(1).drop_last()) == 0);
            assert(total_codigos(ps.take(1)) == primeros);
        }
        let mut i: usize = 1;
        while i < productos.len()
            invariant
                ps == productos@.map_values(|p: Producto| p@),
                1 <= i <= ps.len(),
                primeros == ps[0].codigos_de_barras.len(),
                total_codigos(ps) <= usize::MAX,
                total_codigos(ps.take(i as int)) <= total_codigos(ps),
                filas_codigos == (if primeros >= 1 { (primeros - 1) as nat } else { 0nat }) + total_codigos(ps.take(i as int)) - primeros,
                total_codigos(ps.take(i as int)) >= primeros,
            decreases ps.len() - i,
        {
            proof {
                assert(ps.take(i + 1).drop_last() =~= ps.take(i as int));
                assert(ps[i as int] == productos@[i as int]@);
                lema_total_codigos_prefijo(ps, i + 1);
            }
            filas_codigos = filas_codigos + productos[i].codigos_de_barras().len();
            i += 1;
        }
        assert(ps.take(ps.len() as int) =~= ps);
        let mut codigos = INSERTAR_CODIGOS_DE_PRODUCTOS.to_string();
        repetir(&mut codigos, FILA_CODIGO, filas_codigos);
        let mut filas = INSERTAR_PRODUCTOS.to_string();
        repetir(&mut filas, FILA_PRODUCTO, productos.len() - 1);
        (codigos, filas)
    }

    /// The statements that store articles sold by weight and their codes in one go: one
    /// row each, and at least one.
    pub fn cargar_todos_los_pesables(cantidad: usize) -> (res: (String, String))
        ensures
            res.0@ == INSERTAR_PESABLES@ + repetido(FILA_PESABLE@, if cantidad >= 1 { (cantidad - 1) as nat } else { 0 }),
            res.1@ == INSERTAR_CODIGOS_DE_PESABLES@ + repetido(FILA_CODIGO@, if cantidad >= 1 { (cantidad - 1) as nat } else { 0 }),
    {
        let extra: usize = if cantidad >= 1 { cantidad - 1 } else { 0 };
        let mut filas = INSERTAR_PESABLES.to_string();
        repetir(&mut filas, FILA_PESABLE, extra);
        let mut codigos = INSERTAR_CODIGOS_DE_PESABLES.to_string();
        repetir(&mut codigos, FILA_CODIGO, extra);
        (filas, codigos)
    }

    /// The statements that store departments and their codes in one go: one row each, and
    /// at least one.
    pub fn cargar_todos_los_rubros(cantidad: usize) -> (res: (String, String))
        ensures
            res.0@ == INSERTAR_RUBROS@ + repetido(FILA_RUBRO@, if cantidad >= 1 { (cantidad - 1) as nat } else { 0 }),
            res.1@ == INSERTAR_CODIGOS_DE_RUBROS@ + repetido(FILA_CODIGO@, if cantidad >= 1 { (cantidad - 1) as nat } else { 0 }),
    {
        let extra: usize = if cantidad >= 1 { cantidad - 1 } else { 0 };
        let mut filas = INSERTAR_RUBROS.to_string();
        repetir(&mut filas, FILA_RUBRO, extra);
        let mut codigos = INSERTAR_CODIGOS_DE_RUBROS.to_string();
        repetir(&mut codigos, FILA_CODIGO, extra);
        (filas, codigos)
    }

    /// The articles split by kind, each kind in order.
    pub fn cargar_todos_los_valuables(valuables: &Vec<Valuable>) -> (res: (Vec<Producto>, Vec<Pesable>, Vec<Rubro>))
        ensures
            res.0@.map_values(|p: Producto| p@) == solo_productos(valuables@.map_values(|v: Valuable| v@)),
            res.1@.map_values(|p: Pesable| p@) == solo_pesables(valuables@.map_values(|v: Valuable| v@)),
            res.2@.map_values(|r: Rubro| r@) == solo_rubros(valuables@.map_values(|v: Valuable| v@)),
    {
        let ghost vs = valuables@.map_values(|v: Valuable| v@);
        let mut prods: Vec<Producto> = Vec::new();
        let mut pes: Vec<Pesable> = Vec::new();
        let mut rubs: Vec<Rubro> = Vec::new();
        let mut i: usize = 0;
        while i < valuables.len()
            invariant
                vs == valuables@.map_values(|v: Valuable| v@),
                i <= vs.len(),
                prods@.map_values(|p: Producto| p@) == solo_productos(vs.take(i as int)),
                pes@.map_values(|p: Pesable| p@) == solo_pesables(vs.take(i as int)),
                rubs@.map_values(|r: Rubro| r@) == solo_rubros(vs.take(i as int)),
            decreases vs.len() - i,
        {
            assert(vs.take(i + 1).drop_last() =~= vs.take(i as int));
            assert(vs[i as int] == valuables@[i as int]@);
            match &valuables[i] {
                Valuable::Prod(a) => {
                    let ghost antes = prods@.map_values(|p: Producto| p@);
                    prods.push(a.1.copia());
                    assert(prods@.map_values(|p: Producto| p@) =~= antes.push(a.1@));
                },
                Valuable::Pes(a) => {
                    let ghost antes = pes@.map_values(|p: Pesable| p@);
                    pes.push(a.1.copia());
                    assert(pes@.map_values(|p: Pesable| p@) =~= antes.push(a.1@));
                },
                Valuable::Rub(a) => {
                    let ghost antes = rubs@.map_values(|r: Rubro| r@);
                    rubs.push(a.1.copia());
                    assert(rubs@.map_values(|r: Rubro| r@) =~= antes.push(a.1@));
                },
            }
            i += 1;
        }
        assert(vs.take(vs.len() as int) =~= vs);
        (prods, pes, rubs)
    }

    /// The stored id of a user to delete; a user not stored is an error.
    pub fn eliminar_usuario(user: &User, encontrado: Option<i64>) -> (res: Result<i64, AppError>)
        ensures
            match encontrado {
                Some(id) => res == Ok::<i64, AppError>(id),
                None => res matches Err(AppError::NotFound { objeto, instancia })
                    && objeto@ == "Usuario"@ && instancia@ == user.id_spec(),
            },
    {
        match encontrado {
            Some(id) => Ok(id),
            None => Err(AppError::NotFound { objeto: "Usuario".to_string(), instancia: user.id().to_string() }),
        }
    }

    /// What storing a relation does, given the code of the relation stored for the same
    /// product and supplier, if one is: nothing when the code is the same, an update when
    /// it differs, an insertion when none is stored.
    pub fn accion_relacion(relacion: &RelacionProdProv, guardada: Option<Option<i64>>) -> (res: AccionRelacion)
        ensures
            res == accion_spec(relacion@, guardada),
    {
        match guardada {
            Some(c) => {
                if c == relacion.codigo_interno() {
                    AccionRelacion::Nada
                } else {
                    AccionRelacion::Actualizar(relacion.codigo_interno())
                }
            },
            None => AccionRelacion::Insertar,
        }
    }

    /// What storing each relation in turn does, given what the store held for each before
    /// any was stored (`iniciales`): a relation finds stored the code of the last one before
    /// it with the same product and supplier, or else what the store held.
    pub fn cargar_todas_las_relaciones_prod_prov(
        relaciones: &Vec<RelacionProdProv>,
        iniciales: &Vec<Option<Option<i64>>>,
    ) -> (res: Vec<AccionRelacion>)
        requires
            iniciales@.len() == relaciones@.len(),
        ensures
            res@.len() == relaciones@.len(),
            forall|i: int| 0 <= i < res@.len() ==> #[trigger] res@[i] == accion_spec(
                relaciones@[i]@,
                guardada_al_cargar(relaciones@.map_values(|r: RelacionProdProv| r@), iniciales@, i),
            ),
    {
        let ghost rs = relaciones@.map_values(|r: RelacionProdProv| r@);
        let mut res: Vec<AccionRelacion> = Vec::new();
        let mut i: usize = 0;
        while i < relaciones.len()
            invariant
                rs == relaciones@.map_values(|r: RelacionProdProv| r@),
                iniciales@.len() == relaciones@.len(),
                i <= relaciones@.len(),
                res@.len() == i,
                forall|k: int| 0 <= k < i ==> #[trigger] res@[k] == accion_spec(relaciones@[k]@, guardada_al_cargar(rs, iniciales@, k)),
            decreases relaciones@.len() - i,
        {
            let r = &relaciones[i];
            let mut j: usize = i;
            let mut previa: Option<usize> = None;
            while j > 0
                invariant
                    rs == relaciones@.map_values(|r: RelacionProdProv| r@),
                    i < relaciones@.len(),
                    j <= i,
                    *r == relaciones@[i as int],
                    previa is None ==> ultima_igual(rs, i as int, i as int) == ultima_igual(rs, i as int, j as int),
                    previa matches Some(p) ==> ultima_igual(rs, i as int, i as int) == Some(p as int) && p < i,
                    previa is Some ==> j == 0,
                decreases j,
            {
                let a = &relaciones[j - 1];
                if *a.id_producto() == *r.id_producto() && *a.id_proveedor() == *r.id_proveedor() {
                    previa = Some(j - 1);
                    j = 0;
                } else {
                    j -= 1;
                }
            }
            let guardada = match previa {
                Some(p) => Some(relaciones[p].codigo_interno()),
                None => iniciales[i],
            };
            res.push(Db::accion_relacion(r, guardada));
            i += 1;
        }
        res
    }
}

/// What storing `relacion` does when the store holds `guardada` for its product and
/// supplier.
pub open spec fn accion_spec(relacion: RelacionProdProvV, guardada: Option<Option<i64>>) -> AccionRelacion {
    match guardada {
        Some(c) => if c == relacion.codigo_interno { AccionRelacion::Nada } else { AccionRelacion::Actualizar(relacion.codigo_interno) },
        None => AccionRelacion::Insertar,
    }
}

/// The place of the last relation before `k` with the product and supplier of the one at
/// `i`.
pub open spec fn ultima_igual(rs: Seq<RelacionProdProvV>, i: int, k: int) -> Option<int>
    decreases k,
{
    if k <= 0 {
        None
    } else if rs[k - 1].id_producto == rs[i].id_producto && rs[k - 1].id_proveedor == rs[i].id_proveedor {
        Some(k - 1)
    } else {
        ultima_igual(rs, i, k - 1)
    }
}

/// What the store holds for the relation at `i` when its turn comes, loading in order:
/// the code of the last one before it with the same product and supplier, or else what
/// the store held before the load.
pub open spec fn guardada_al_cargar(rs: Seq<RelacionProdProvV>, iniciales: Seq<Option<Option<i64>>>, i: int) -> Option<Option<i64>> {
    match ultima_igual(rs, i, i) {
        Some(j) => Some(rs[j].codigo_interno),
        None => iniciales[i],
    }
}

proof fn lema_total_codigos_prefijo(ps: Seq<ProductoV>, i: int)
    requires
        0 <= i <= ps.len(),
    ensures
        total_codigos(ps.take(i)) <= total_codigos(ps),
    decreases ps.len(),
{
    if i < ps.len() {
        assert(ps.drop_last().take(i) =~= ps.take(i));
        lema_total_codigos_prefijo(ps.drop_last(), i);
    } else {
        assert(ps.take(i) =~= ps);
    }
}

} // verus!
