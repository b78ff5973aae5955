use vstd::prelude::*;
use crate::calculo::saturar;
use crate::cliente::{Cli, Cliente, ClienteV};
use crate::db::{fila_pago, fila_pago_guardado, ActualizacionVenta, DeudaDB, fila_venta, filas_pesables, filas_productos, filas_rubros, FilasVenta, NuevoPagoDB, VentaDB, VentaPesDB, VentaProdDB, VentaRubDB};
use crate::error::AppError;
use crate::pago::{MedioPago, MedioPagoV, Pago, PagoV};
use crate::texto::{iguales, iguales_sin_caso, iguales_sin_caso_spec, natural_a_texto, decimal};
use crate::user::{User, UserV};
use crate::valuable::{linea, linea_pesable, mismo_articulo, Valuable, ValuableV};

verus! {

/// The name of the means of payment by which a registered client buys on credit.
pub const CUENTA: &'static str = "Cuenta Corriente";

/// The abstract value of a sale.
pub struct VentaV {
    pub id: i32,
    pub monto_total: u64,
    pub productos: Seq<ValuableV>,
    pub pagos: Seq<PagoV>,
    pub monto_pagado: u64,
    pub vendedor: Option<UserV>,
    pub cliente: ClienteV,
    pub paga: bool,
    pub cerrada: bool,
}

/// A sale in progress or closed: its items, its payments and the amounts in cents they
/// add up to. A sale is closed once its payments cover its total, and paid when it is
/// closed and nothing of it went on a current account.
#[derive(Debug)]
pub struct Venta {
    id: i32,
    monto_total: u64,
    productos: Vec<Valuable>,
    pagos: Vec<Pago>,
    monto_pagado: u64,
    vendedor: Option<User>,
    cliente: Cliente,
    paga: bool,
    cerrada: bool,
}

pub open spec fn vista_usuario(u: Option<User>) -> Option<UserV> {
    match u {
        Some(x) => Some(x@),
        None => None,
    }
}

impl View for Venta {
    type V = VentaV;

    closed spec fn view(&self) -> VentaV {
        VentaV {
            id: self.id,
            monto_total: self.monto_total,
            productos: self.productos@.map_values(|v: Valuable| v@),
            pagos: self.pagos@.map_values(|p: Pago| p@),
            monto_pagado: self.monto_pagado,
            vendedor: vista_usuario(self.vendedor),
            cliente: self.cliente@,
            paga: self.paga,
            cerrada: self.cerrada,
        }
    }
}

/// The total of the items of a sale, before it is held to the range of `u64`.
pub open spec fn total(items: Seq<ValuableV>, politica: int) -> int
    decreases items.len(),
{
    if items.len() == 0 {
        0
    } else {
        total(items.drop_last(), politica) + linea(items.last(), politica)
    }
}

/// A department has an amount; other items need none.
pub open spec fn con_monto(v: ValuableV) -> bool {
    match v {
        ValuableV::Rub(_, r) => r.monto is Some,
        _ => true,
    }
}

/// Every department in the items has an amount: the total of a sale needs it.
pub open spec fn montos_definidos(items: Seq<ValuableV>) -> bool {
    forall|i: int| 0 <= i < items.len() ==> match #[trigger] items[i] {
        ValuableV::Rub(_, r) => r.monto is Some,
        _ => true,
    }
}

/// The item with its quantity raised by one unit (a kilogram for an item sold by weight).
pub open spec fn incrementado(v: ValuableV) -> ValuableV {
    match v {
        ValuableV::Prod(c, p) => ValuableV::Prod((c + 1) as u8, p),
        ValuableV::Pes(c, p) => ValuableV::Pes((c + 1000) as u32, p),
        ValuableV::Rub(c, r) => ValuableV::Rub((c + 1) as u8, r),
    }
}

/// Whether the quantity of the item can be raised by one unit.
pub open spec fn puede_incrementarse(v: ValuableV) -> bool {
    match v {
        ValuableV::Prod(c, _) => c < u8::MAX,
        ValuableV::Pes(c, _) => c + 1000 <= u32::MAX,
        ValuableV::Rub(c, _) => c < u8::MAX,
    }
}

/// The item with its quantity lowered by one unit, unless it is one unit or less.
pub open spec fn decrementado(v: ValuableV) -> ValuableV {
    match v {
        ValuableV::Prod(c, p) => if c > 1 { ValuableV::Prod((c - 1) as u8, p) } else { v },
        ValuableV::Pes(c, p) => if c > 1000 { ValuableV::Pes((c - 1000) as u32, p) } else { v },
        ValuableV::Rub(c, r) => if c > 1 { ValuableV::Rub((c - 1) as u8, r) } else { v },
    }
}

/// The item with its quantity set from an amount in thousandths: the weight itself for an
/// item sold by weight, whole units (held at 255) otherwise.
pub open spec fn con_cantidad(v: ValuableV, cantidad: u32) -> ValuableV {
    let unidades = if cantidad / 1000 > 255 { 255u8 } else { (cantidad / 1000) as u8 };
    match v {
        ValuableV::Prod(_, p) => ValuableV::Prod(unidades, p),
        ValuableV::Pes(_, p) => ValuableV::Pes(cantidad, p),
        ValuableV::Rub(_, r) => ValuableV::Rub(unidades, r),
    }
}

pub open spec fn es_rubro(v: ValuableV) -> bool {
    v is Rub
}

/// The items after the article `nuevo` is added to a sale. An article not in the sale is
/// appended with its own quantity. When it is there, every product or item sold by weight
/// equal to it gains one unit, while every department equal to it is repeated once more at
/// the end of the sale.
pub open spec fn con_agregado(items: Seq<ValuableV>, nuevo: ValuableV) -> Seq<ValuableV> {
    if exists|i: int| 0 <= i < items.len() && mismo_articulo(nuevo, #[trigger] items[i]) {
        items.map_values(|v: ValuableV| if mismo_articulo(nuevo, v) && !es_rubro(v) { incrementado(v) } else { v })
            + items.filter(|v: ValuableV| mismo_articulo(nuevo, v) && es_rubro(v))
    } else {
        items.push(nuevo)
    }
}

/// The items of a sale that can take one more unit of the article `nuevo`.
pub open spec fn admite_agregado(items: Seq<ValuableV>, nuevo: ValuableV) -> bool {
    forall|i: int| 0 <= i < items.len() && mismo_articulo(nuevo, #[trigger] items[i]) && !es_rubro(items[i])
        ==> puede_incrementarse(items[i])
}

/// What is left to pay of a sale: its total less its payments, negative when there is change.
pub open spec fn resto_spec(v: VentaV) -> int {
    v.monto_total - v.monto_pagado
}

pub open spec fn es_cuenta(m: Seq<char>) -> bool {
    iguales_sin_caso_spec(m, CUENTA@)
}

/// Whether a sale takes a payment by this means: one on a current account only when the
/// client is registered and has credit.
pub open spec fn pago_permitido(v: VentaV, medio: MedioPagoV) -> bool {
    medio.medio != CUENTA@ || (v.cliente matches ClienteV::Regular(c) && c.credito)
}

/// The means a payment by `medio` is recorded under: a payment on a current account is
/// recorded under the current account's own id.
pub open spec fn medio_registrado(medio: MedioPagoV) -> MedioPagoV {
    if medio.medio == CUENTA@ { MedioPagoV { medio: CUENTA@, id: 0 } } else { medio }
}

/// `d` is the sale `v` after a payment of `monto` by `medio`: the payment is appended,
/// owed in full when it is on a current account and paid otherwise; the amount paid grows
/// by it; the sale closes once its payments cover its total, and is paid when it is closed
/// and none of its payments is on a current account. The payment's own id is not fixed.
pub open spec fn pago_agregado(v: VentaV, d: VentaV, medio: MedioPagoV, monto: u64) -> bool {
    let cuenta = medio.medio == CUENTA@;
    let p = d.pagos.last();
    &&& d.pagos.len() == v.pagos.len() + 1
    &&& d.pagos.drop_last() == v.pagos
    &&& p.medio_pago == medio_registrado(medio)
    &&& p.monto == monto
    &&& p.pagado == (if cuenta { 0 } else { monto })
    &&& d.monto_pagado == saturar(v.monto_pagado + monto)
    &&& d.cerrada == (v.cerrada || resto_spec(d) <= 0)
    &&& d.paga == (v.paga || (d.cerrada
        && !(exists|i: int| 0 <= i < d.pagos.len() && es_cuenta(#[trigger] d.pagos[i].medio_pago.medio))))
    &&& d.productos == v.productos
    &&& d.monto_total == v.monto_total
    &&& d.id == v.id
    &&& d.cliente == v.cliente
    &&& d.vendedor == v.vendedor
}

/// `i` is the place of the first payment of the sale with the given id.
pub open spec fn primer_pago(v: VentaV, id: i64, i: int) -> bool {
    &&& 0 <= i < v.pagos.len()
    &&& v.pagos[i].id == id
    &&& forall|j: int| 0 <= j < i ==> v.pagos[j].id != id
}

/// The sale without its payment at `i`, and without what it paid (down to zero).
pub open spec fn sin_pago(v: VentaV, i: int) -> VentaV {
    VentaV {
        pagos: v.pagos.remove(i),
        monto_pagado: if v.monto_pagado >= v.pagos[i].monto { (v.monto_pagado - v.pagos[i].monto) as u64 } else { 0 },
        ..v
    }
}

/// Taking off a payment just added gives back the payments and the amount paid, when the
/// new payment's id is not among the old ones and the amount paid stayed within `u64`.
pub proof fn lema_pago_y_eliminacion(v: VentaV, d: VentaV, medio: MedioPagoV, monto: u64)
    requires
        pago_agregado(v, d, medio, monto),
        v.monto_pagado + monto <= u64::MAX,
        forall|j: int| 0 <= j < v.pagos.len() ==> #[trigger] v.pagos[j].id != d.pagos.last().id,
    ensures
        primer_pago(d, d.pagos.last().id, v.pagos.len() as int),
        sin_pago(d, v.pagos.len() as int).pagos == v.pagos,
        sin_pago(d, v.pagos.len() as int).monto_pagado == v.monto_pagado,
{
    let n = v.pagos.len() as int;
    assert forall|j: int| 0 <= j < n implies d.pagos[j].id != d.pagos.last().id by {
        assert(d.pagos[j] == d.pagos.drop_last()[j]);
    }
    assert(d.pagos.remove(n) =~= d.pagos.drop_last());
}

/// The sale with the given items and its total computed under the policy; all else kept.
pub open spec fn con_items(v: VentaV, items: Seq<ValuableV>, politica: int) -> VentaV {
    VentaV { productos: items, monto_total: saturar(total(items, politica)) as u64, ..v }
}

proof fn lema_saturar_suma(a: int, b: int)
    requires
        a >= 0,
        b >= 0,
    ensures
        saturar(saturar(a) + b) == saturar(a + b),
{
}

proof fn lema_linea_no_negativa(v: ValuableV, politica: int)
    requires
        politica >= 0,
    ensures
        linea(v, politica) >= 0,
{
    match v {
        ValuableV::Prod(c, p) => {
            assert(p.precio_de_venta * c >= 0) by (nonlinear_arith) requires p.precio_de_venta >= 0, c >= 0;
        },
        ValuableV::Pes(c, p) => {
            assert(c * p.precio_peso >= 0) by (nonlinear_arith) requires p.precio_peso >= 0, c >= 0;
            if politica > 0 {
                crate::calculo::lema_redondeo_cercano(politica * 1000, c * p.precio_peso);
            }
        },
        ValuableV::Rub(c, r) => {
            match r.monto {
                Some(m) => {
                    assert(m * c >= 0) by (nonlinear_arith) requires m >= 0, c >= 0;
                },
                None => {},
            }
        },
    }
}

/// The total of the sale is what its items give under the policy.
pub open spec fn total_coherente(v: VentaV, politica: int) -> bool {
    v.monto_total == saturar(total(v.productos, politica))
}

/// The operations on the items of a sale, emptying it and taking a payment keep its total
/// equal to what its items give under the policy.
pub proof fn lema_total_coherente(v: VentaV, politica: int, nuevo: ValuableV, index: int, d: VentaV, medio: MedioPagoV, monto: u64)
    requires
        total_coherente(v, politica),
        politica >= 0,
    ensures
        total_coherente(con_items(v, con_agregado(v.productos, nuevo), politica), politica),
        0 <= index < v.productos.len() ==> total_coherente(
            con_items(v, v.productos.update(index, decrementado(v.productos[index])), politica), politica),
        0 <= index < v.productos.len() ==> total_coherente(
            con_items(v, v.productos.update(index, incrementado(v.productos[index])), politica), politica),
        0 <= index < v.productos.len() ==> total_coherente(con_items(v, v.productos.remove(index), politica), politica),
        total_coherente(VentaV { monto_pagado: 0, productos: Seq::empty(), monto_total: 0, pagos: Seq::empty(), ..v }, politica),
        pago_agregado(v, d, medio, monto) ==> total_coherente(d, politica),
{
    assert(total(Seq::<ValuableV>::empty(), politica) == 0);
    lema_total_no_negativo(con_agregado(v.productos, nuevo), politica);
    if 0 <= index < v.productos.len() {
        lema_total_no_negativo(v.productos.update(index, decrementado(v.productos[index])), politica);
        lema_total_no_negativo(v.productos.update(index, incrementado(v.productos[index])), politica);
        lema_total_no_negativo(v.productos.remove(index), politica);
    }
}

proof fn lema_total_no_negativo(items: Seq<ValuableV>, politica: int)
    requires
        politica >= 0,
    ensures
        total(items, politica) >= 0,
    decreases items.len(),
{
    if items.len() > 0 {
        lema_total_no_negativo(items.drop_last(), politica);
        lema_linea_no_negativa(items.last(), politica);
    }
}

/// The total of a sale is the sum of its lines, each a price times a quantity: adding a
/// line of `c` units of a product adds its price times `c`, adding a line of `c` units of a
/// department with amount `m` adds `m * c`, and an empty sale totals nothing.
pub proof fn lema_total_por_lineas(items: Seq<ValuableV>, x: ValuableV, politica: int)
    ensures
        total(Seq::<ValuableV>::empty(), politica) == 0,
        x matches ValuableV::Prod(c, p) ==> total(items.push(x), politica) == total(items, politica) + p.precio_de_venta * c,
        x matches ValuableV::Rub(c, r) ==> total(items.push(x), politica) == total(items, politica) + match r.monto {
            Some(m) => m * c,
            None => 0,
        },
{
    assert(items.push(x).drop_last() =~= items);
}

/// Raising by one unit the quantity of a department line with amount `m` raises the total
/// of the sale by `m`; for a product line, by its price.
pub proof fn lema_total_una_unidad_mas(items: Seq<ValuableV>, i: int, politica: int)
    requires
        0 <= i < items.len(),
        (items[i] matches ValuableV::Rub(c, _) && c < 255) || (items[i] matches ValuableV::Prod(c, _) && c < 255),
    ensures
        items[i] matches ValuableV::Rub(c, r) ==> total(items.update(i, ValuableV::Rub((c + 1) as u8, r)), politica)
            == total(items, politica) + match r.monto {
                Some(m) => m as int,
                None => 0,
            },
        items[i] matches ValuableV::Prod(c, p) ==> total(items.update(i, ValuableV::Prod((c + 1) as u8, p)), politica)
            == total(items, politica) + p.precio_de_venta,
{
    let v = match items[i] {
        ValuableV::Rub(c, r) => ValuableV::Rub((c + 1) as u8, r),
        ValuableV::Prod(c, p) => ValuableV::Prod((c + 1) as u8, p),
        ValuableV::Pes(c, p) => ValuableV::Pes(c, p),
    };
    let u = items.update(i, v);
    lema_total_sin_item(items, i, politica);
    lema_total_sin_item(u, i, politica);
    assert(u.remove(i) =~= items.remove(i));
    match items[i] {
        ValuableV::Rub(c, r) => {
            match r.monto {
                Some(m) => {
                    assert(m * (c + 1) == m * c + m) by (nonlinear_arith);
                },
                None => {},
            }
        },
        ValuableV::Prod(c, p) => {
            assert(p.precio_de_venta * (c + 1) == p.precio_de_venta * c + p.precio_de_venta) by (nonlinear_arith);
        },
        _ => {},
    }
}

/// Removing an item takes exactly its line off the total of a sale.
pub proof fn lema_total_sin_item(items: Seq<ValuableV>, i: int, politica: int)
    requires
        0 <= i < items.len(),
    ensures
        total(items.remove(i), politica) + linea(items[i], politica) == total(items, politica),
    decreases items.len(),
{
    if i == items.len() - 1 {
        assert(items.remove(i) =~= items.drop_last());
    } else {
        lema_total_sin_item(items.drop_last(), i, politica);
        assert(items.remove(i).drop_last() =~= items.drop_last().remove(i));
        assert(items.remove(i).last() == items.last());
        assert(items.drop_last()[i] == items[i]);
    }
}

/// Raising the quantity of an item of one unit or more and then lowering it gives back
/// the item.
pub proof fn lema_incrementar_y_restar(v: ValuableV)
    requires
        puede_incrementarse(v),
        match v {
            ValuableV::Pes(c, _) => c >= 1,
            ValuableV::Prod(c, _) => c >= 1,
            ValuableV::Rub(c, _) => c >= 1,
        },
    ensures
        decrementado(incrementado(v)) == v,
{
}

/// Adding a unit to an item of a sale and taking it off again gives back the items, and
/// the total the items give under the policy.
pub proof fn lema_venta_incrementar_y_restar(v: VentaV, index: int, politica: int)
    requires
        0 <= index < v.productos.len(),
        puede_incrementarse(v.productos[index]),
        match v.productos[index] {
            ValuableV::Pes(c, _) => c >= 1,
            ValuableV::Prod(c, _) => c >= 1,
            ValuableV::Rub(c, _) => c >= 1,
        },
    ensures
        ({
            let w = con_items(v, v.productos.update(index, incrementado(v.productos[index])), politica);
            let x = con_items(w, w.productos.update(index, decrementado(w.productos[index])), politica);
            x == con_items(v, v.productos, politica)
        }),
{
    let w = con_items(v, v.productos.update(index, incrementado(v.productos[index])), politica);
    lema_incrementar_y_restar(v.productos[index]);
    assert(w.productos.update(index, decrementado(w.productos[index])) =~= v.productos);
}

/// The departments of a sale whose departments all have an amount are stored with it.
proof fn lema_rubros_con_precio(items: Seq<ValuableV>, venta: i32)
    requires
        montos_definidos(items),
    ensures
        forall|i: int| 0 <= i < filas_rubros(items, venta).len() ==> (#[trigger] filas_rubros(items, venta)[i]).precio is Some,
    decreases items.len(),
{
    if items.len() > 0 {
        assert(montos_definidos(items.drop_last())) by {
            assert forall|i: int| 0 <= i < items.drop_last().len() implies match #[trigger] items.drop_last()[i] {
                ValuableV::Rub(_, r) => r.monto is Some,
                _ => true,
            } by {
                assert(items.drop_last()[i] == items[i]);
            }
        }
        lema_rubros_con_precio(items.drop_last(), venta);
        assert(items.last() == items[items.len() - 1]);
    }
}

/// The total of the items, held to the range of `u64`.
fn calcular_total(productos: &Vec<Valuable>, politica: u64) -> (res: u64)
    ensures
        res == saturar(total(productos@.map_values(|v: Valuable| v@), politica as int)),
{
    let ghost items = productos@.map_values(|v: Valuable| v@);
    let mut acc: u64 = 0;
    let mut i: usize = 0;
    while i < productos.len()
        invariant
            items == productos@.map_values(|v: Valuable| v@),
            i <= productos@.len(),
            acc == saturar(total(items.take(i as int), politica as int)),
            total(items.take(i as int), politica as int) >= 0,
        decreases productos@.len() - i,
    {
        proof {
            assert(items.take(i + 1).drop_last() == items.take(i as int));
            assert(items[i as int] == productos@[i as int]@);
            lema_linea_no_negativa(items[i as int], politica as int);
        }
        let l: u128 = match &productos[i] {
            Valuable::Prod(a) => {
                proof {
                    assert(a.1@.precio_de_venta * a.0 <= 0xffff_ffff_ffff_ffffu64 * 0xffu8) by (nonlinear_arith)
                        requires a.1@.precio_de_venta <= 0xffff_ffff_ffff_ffffu64, a.0 <= 0xffu8, a.0 >= 0, a.1@.precio_de_venta >= 0;
                }
                *a.1.precio_de_venta() as u128 * a.0 as u128
            },
            Valuable::Pes(a) => linea_pesable(a.0, *a.1.precio_peso(), politica),
            Valuable::Rub(a) => match a.1.monto() {
                Some(m) => {
                    proof {
                        assert(m * a.0 <= 0xffff_ffff_ffff_ffffu64 * 0xffu8) by (nonlinear_arith)
                            requires m <= 0xffff_ffff_ffff_ffffu64, a.0 <= 0xffu8, a.0 >= 0, m >= 0;
                    }
                    m as u128 * a.0 as u128
                },
                None => 0,
            },
        };
        proof {
            lema_saturar_suma(total(items.take(i as int), politica as int), l as int);
        }
        let suma: u128 = acc as u128 + l;
        acc = if suma > u64::MAX as u128 { u64::MAX } else { suma as u64 };
        i += 1;
    }
    assert(items.take(productos@.len() as int) == items);
    acc
}

/// The rows of the lines of a sale, each kind with its quantities: see `lema_filas_productos`.
proof fn lema_filas_de_venta(items: Seq<ValuableV>, id: i32)
    ensures
        forall|i: int| 0 <= i < items.len() && (#[trigger] items[i] is Prod)
            ==> exists|k: int| 0 <= k < filas_productos(items, id).len() && crate::db::fila_de_producto(items[i], #[trigger] filas_productos(items, id)[k], id),
        forall|k: int| #![trigger filas_productos(items, id)[k]] 0 <= k < filas_productos(items, id).len()
            ==> exists|i: int| #![trigger items[i]] 0 <= i < items.len() && crate::db::fila_de_producto(items[i], filas_productos(items, id)[k], id),
        forall|i: int| 0 <= i < items.len() && (#[trigger] items[i] is Rub)
            ==> exists|k: int| 0 <= k < filas_rubros(items, id).len() && crate::db::fila_de_rubro(items[i], #[trigger] filas_rubros(items, id)[k], id),
        forall|k: int| #![trigger filas_rubros(items, id)[k]] 0 <= k < filas_rubros(items, id).len()
            ==> exists|i: int| #![trigger items[i]] 0 <= i < items.len() && crate::db::fila_de_rubro(items[i], filas_rubros(items, id)[k], id),
        forall|i: int| 0 <= i < items.len() && (#[trigger] items[i] is Pes)
            ==> exists|k: int| 0 <= k < filas_pesables(items, id).len() && crate::db::fila_de_pesable(items[i], #[trigger] filas_pesables(items, id)[k], id),
        forall|k: int| #![trigger filas_pesables(items, id)[k]] 0 <= k < filas_pesables(items, id).len()
            ==> exists|i: int| #![trigger items[i]] 0 <= i < items.len() && crate::db::fila_de_pesable(items[i], filas_pesables(items, id)[k], id),
{
    crate::db::lema_filas_productos(items, id);
    crate::db::lema_filas_rubros(items, id);
    crate::db::lema_filas_pesables(items, id);
}

impl Venta {
    /// A new empty sale of a final consumer, open and unpaid.
    pub fn new(id: i32, vendedor: Option<User>) -> (res: Venta)
        ensures
            res@ == (VentaV {
                id,
                monto_total: 0,
                productos: Seq::empty(),
                pagos: Seq::empty(),
                monto_pagado: 0,
                vendedor: vista_usuario(vendedor),
                cliente: ClienteV::Final,
                paga: false,
                cerrada: false,
            }),
    {
        let v = Venta {
            id,
            monto_total: 0,
            productos: Vec::new(),
            pagos: Vec::new(),
            monto_pagado: 0,
            vendedor,
            cliente: Cliente::Final,
            paga: false,
            cerrada: false,
        };
        assert(v@.productos =~= Seq::empty());
        assert(v@.pagos =~= Seq::empty());
        v
    }

    /// The sale to work with at a position: the open sale stored for it, or a new empty sale
    /// under `id_nueva` when there is none or it is closed.
    pub fn get_or_new(abierta: Option<Venta>, vendedor: Option<User>, id_nueva: i32) -> (res: Venta)
        ensures
            match abierta {
                Some(v) => if v@.cerrada {
                    res@ == (VentaV {
                        id: id_nueva,
                        monto_total: 0,
                        productos: Seq::empty(),
                        pagos: Seq::empty(),
                        monto_pagado: 0,
                        vendedor: vista_usuario(vendedor),
                        cliente: ClienteV::Final,
                        paga: false,
                        cerrada: false,
                    })
                } else {
                    res@ == v@
                },
                None => res@ == (VentaV {
                    id: id_nueva,
                    monto_total: 0,
                    productos: Seq::empty(),
                    pagos: Seq::empty(),
                    monto_pagado: 0,
                    vendedor: vista_usuario(vendedor),
                    cliente: ClienteV::Final,
                    paga: false,
                    cerrada: false,
                }),
            },
    {
        match abierta {
            Some(v) => {
                if v.cerrada {
                    Venta::new(id_nueva, vendedor)
                } else {
                    v
                }
            },
            None => Venta::new(id_nueva, vendedor),
        }
    }

    pub fn build(
        id: i32,
        monto_total: u64,
        productos: Vec<Valuable>,
        pagos: Vec<Pago>,
        monto_pagado: u64,
        vendedor: Option<User>,
        cliente: Cliente,
        paga: bool,
        cerrada: bool,
    ) -> (res: Venta)
        ensures
            res@ == (VentaV {
                id,
                monto_total,
                productos: productos@.map_values(|v: Valuable| v@),
                pagos: pagos@.map_values(|p: Pago| p@),
                monto_pagado,
                vendedor: vista_usuario(vendedor),
                cliente: cliente@,
                paga,
                cerrada,
            }),
    {
        Venta { id, monto_total, productos, pagos, monto_pagado, vendedor, paga, cliente, cerrada }
    }

    /// A copy of the sale.
    pub fn copia(&self) -> (res: Venta)
        ensures
            res@ == self@,
    {
        let mut productos: Vec<Valuable> = Vec::new();
        let mut i: usize = 0;
        while i < self.productos.len()
            invariant
                i <= self.productos@.len(),
                productos@.len() == i,
                forall|k: int| 0 <= k < i ==> #[trigger] productos@[k]@ == self.productos@[k]@,
            decreases self.productos@.len() - i,
        {
            productos.push(self.productos[i].copia());
            i += 1;
        }
        let mut pagos: Vec<Pago> = Vec::new();
        let mut j: usize = 0;
        while j < self.pagos.len()
            invariant
                j <= self.pagos@.len(),
                pagos@.len() == j,
                forall|k: int| 0 <= k < j ==> #[trigger] pagos@[k]@ == self.pagos@[k]@,
            decreases self.pagos@.len() - j,
        {
            pagos.push(self.pagos[j].copia());
            j += 1;
        }
        assert(productos@.map_values(|v: Valuable| v@) =~= self.productos@.map_values(|v: Valuable| v@));
        assert(pagos@.map_values(|p: Pago| p@) =~= self.pagos@.map_values(|p: Pago| p@));
        let vendedor = match &self.vendedor {
            Some(u) => Some(u.copia()),
            None => None,
        };
        Venta {
            id: self.id,
            monto_total: self.monto_total,
            productos,
            pagos,
            monto_pagado: self.monto_pagado,
            vendedor,
            cliente: self.cliente.copia(),
            paga: self.paga,
            cerrada: self.cerrada,
        }
    }

    pub fn id(&self) -> (res: &i32)
        ensures
            *res == self@.id,
    {
        &self.id
    }

    pub fn monto_total(&self) -> (res: u64)
        ensures
            res == self@.monto_total,
    {
        self.monto_total
    }

    pub fn monto_pagado(&self) -> (res: u64)
        ensures
            res == self@.monto_pagado,
    {
        self.monto_pagado
    }

    pub fn paga(&self) -> (res: bool)
        ensures
            res == self@.paga,
    {
        self.paga
    }

    pub fn cerrada(&self) -> (res: bool)
        ensures
            res == self@.cerrada,
    {
        self.cerrada
    }

    pub fn cliente(&self) -> (res: &Cliente)
        ensures
            res@ == self@.cliente,
    {
        &self.cliente
    }

    pub fn vendedor(&self) -> (res: Option<User>)
        ensures
            vista_usuario(res) == self@.vendedor,
    {
        match &self.vendedor {
            Some(u) => Some(u.copia()),
            None => None,
        }
    }

    /// The number of items in the sale.
    pub fn cantidad_productos(&self) -> (res: usize)
        ensures
            res == self@.productos.len(),
    {
        self.productos.len()
    }

    pub fn productos(&self) -> (res: Vec<Valuable>)
        ensures
            res@.map_values(|v: Valuable| v@) == self@.productos,
    {
        self.copia().productos
    }

    pub fn pagos(&self) -> (res: Vec<Pago>)
        ensures
            res@.map_values(|p: Pago| p@) == self@.pagos,
    {
        self.copia().pagos
    }

    /// Empties the sale: no items, no payments, nothing to pay.
    pub fn empty(&mut self)
        ensures
            final(self)@ == (VentaV {
                monto_pagado: 0,
                productos: Seq::empty(),
                monto_total: 0,
                pagos: Seq::empty(),
                ..old(self)@
            }),
    {
        self.monto_pagado = 0;
        self.productos.clear();
        self.monto_total = 0;
        self.pagos.clear();
        assert(self@.productos =~= Seq::empty());
        assert(self@.pagos =~= Seq::empty());
    }

    /// Recomputes the total of the sale under the rounding policy.
    fn update_monto_total(&mut self, politica: &u64)
        ensures
            final(self)@ == con_items(old(self)@, old(self)@.productos, *politica as int),
    {
        self.monto_total = calcular_total(&self.productos, *politica);
    }

    /// Sets the quantity of the item at `index` from an amount in thousandths; the total
    /// is left as it was.
    pub fn set_cantidad_producto(&mut self, index: usize, cantidad: u32) -> (res: Result<Venta, AppError>)
        requires
            index < old(self)@.productos.len(),
        ensures
            final(self)@ == (VentaV {
                productos: old(self)@.productos.update(index as int, con_cantidad(old(self)@.productos[index as int], cantidad)),
                ..old(self)@
            }),
            res matches Ok(v) && v@ == final(self)@,
    {
        let unidades: u8 = if cantidad / 1000 > 255 { 255 } else { (cantidad / 1000) as u8 };
        let producto = self.productos.remove(index);
        let producto = match producto {
            Valuable::Prod((_, prod)) => Valuable::Prod((unidades, prod)),
            Valuable::Pes((_, pes)) => Valuable::Pes((cantidad, pes)),
            Valuable::Rub((_, rub)) => Valuable::Rub((unidades, rub)),
        };
        self.productos.insert(index, producto);
        proof {
            assert(self@.productos =~= old(self)@.productos.update(index as int, con_cantidad(old(self)@.productos[index as int], cantidad)));
        }
        Ok(self.copia())
    }

    /// Adds a payment. A payment on a current account is allowed only to a registered
    /// client with credit, and is recorded as owed in full; any other payment counts as
    /// paid. The sale closes once its payments cover its total, and is paid when it is closed
    /// and none of its payments is on a current account. The result is what is left to pay.
    pub fn agregar_pago(&mut self, medio_pago: MedioPago, monto: u64) -> (res: Result<i128, AppError>)
        ensures
            if pago_permitido(old(self)@, medio_pago@) {
                &&& pago_agregado(old(self)@, final(self)@, medio_pago@, monto)
                &&& res == Ok::<i128, AppError>(resto_spec(final(self)@) as i128)
            } else {
                &&& res matches Err(AppError::IncorrectError(_))
                &&& final(self)@ == old(self)@
            },
    {
        let nombre = medio_pago.desc();
        if iguales(nombre.as_str(), CUENTA) {
            let permitido = match &self.cliente {
                Cliente::Final => false,
                Cliente::Regular(cli) => cli.credito(),
            };
            if !permitido {
                return Err(AppError::IncorrectError("No esta permitido cuenta corriente en este cliente".to_string()));
            }
            let medio = MedioPago::new(CUENTA, 0);
            self.pagos.push(Pago::new(medio, monto, Some(0)));
        } else {
            self.pagos.push(Pago::new(medio_pago, monto, None));
        }
        proof {
            assert(self@.pagos.drop_last() =~= old(self)@.pagos);
        }
        let suma: u128 = self.monto_pagado as u128 + monto as u128;
        self.monto_pagado = if suma > u64::MAX as u128 { u64::MAX } else { suma as u64 };
        let res: i128 = self.monto_total as i128 - self.monto_pagado as i128;
        if res <= 0 {
            self.cerrada = true;
        }
        let mut es_cred = false;
        let mut i: usize = 0;
        while i < self.pagos.len()
            invariant
                i <= self@.pagos.len(),
                es_cred == (exists|j: int| 0 <= j < i && es_cuenta(#[trigger] self@.pagos[j].medio_pago.medio)),
            decreases self@.pagos.len() - i,
        {
            let m = self.pagos[i].medio();
            proof {
                assert(self@.pagos[i as int] == self.pagos@[i as int]@);
            }
            if iguales_sin_caso(m.as_str(), CUENTA) {
                es_cred = true;
            }
            i += 1;
        }
        if self.cerrada && !es_cred {
            self.paga = true;
        }
        Ok(res)
    }

    /// Adds an article to the sale and recomputes its total: see `con_agregado`.
    pub fn agregar_producto(&mut self, producto: Valuable, politica: &u64)
        requires
            admite_agregado(old(self)@.productos, producto@),
            montos_definidos(old(self)@.productos),
            con_monto(producto@),
        ensures
            final(self)@ == con_items(old(self)@, con_agregado(old(self)@.productos, producto@), *politica as int),
    {
        let ghost items = self@.productos;
        let ghost nuevo = producto@;
        let mut nuevos: Vec<Valuable> = Vec::new();
        let mut repetidos: Vec<Valuable> = Vec::new();
        let mut esta = false;
        let mut i: usize = 0;
        while i < self.productos.len()
            invariant
                items == self@.productos,
                nuevo == producto@,
                admite_agregado(items, nuevo),
                i <= items.len(),
                nuevos@.len() == i,
                forall|k: int| 0 <= k < i ==> #[trigger] nuevos@[k]@ == (
                    if mismo_articulo(nuevo, items[k]) && !es_rubro(items[k]) { incrementado(items[k]) } else { items[k] }),
                repetidos@.map_values(|v: Valuable| v@) == items.take(i as int).filter(
                    |v: ValuableV| mismo_articulo(nuevo, v) && es_rubro(v)),
                esta == (exists|j: int| 0 <= j < i && mismo_articulo(nuevo, #[trigger] items[j])),
            decreases items.len() - i,
        {
            proof {
                assert(items.take(i + 1).drop_last() == items.take(i as int));
                assert(items[i as int] == self.productos@[i as int]@);
            }
            let igual = producto.eq(&self.productos[i]);
            let actual = &self.productos[i];
            if igual {
                esta = true;
                match actual {
                    Valuable::Pes(a) => {
                        nuevos.push(Valuable::Pes((a.0 + 1000, a.1.copia())));
                    },
                    Valuable::Prod(a) => {
                        nuevos.push(Valuable::Prod((a.0 + 1, a.1.copia())));
                    },
                    Valuable::Rub(a) => {
                        nuevos.push(Valuable::Rub((a.0, a.1.copia())));
                        repetidos.push(Valuable::Rub((a.0, a.1.copia())));
                    },
                }
            } else {
                nuevos.push(actual.copia());
            }
            proof {
                let g = |v: ValuableV| mismo_articulo(nuevo, v) && es_rubro(v);
                reveal_with_fuel(Seq::<_>::filter, 1);
                assert(items.take(i + 1).drop_last() == items.take(i as int));
                assert(repetidos@.map_values(|v: Valuable| v@) =~= items.take(i + 1).filter(g));
            }
            i += 1;
        }
        proof {
            assert(items.take(items.len() as int) == items);
            assert(nuevos@.map_values(|v: Valuable| v@) =~= items.map_values(
                |v: ValuableV| if mismo_articulo(nuevo, v) && !es_rubro(v) { incrementado(v) } else { v }));
        }
        if esta {
            let ghost antes = nuevos@.map_values(|v: Valuable| v@);
            nuevos.append(&mut repetidos);
            proof {
                assert(nuevos@.map_values(|v: Valuable| v@) =~= con_agregado(items, nuevo));
            }
        } else {
            let ghost antes = nuevos@;
            nuevos.push(producto);
            proof {
                assert(nuevos@.map_values(|v: Valuable| v@) =~= antes.map_values(|v: Valuable| v@).push(nuevo));
                assert(nuevos@.map_values(|v: Valuable| v@) =~= items.push(nuevo));
            }
        }
        self.productos = nuevos;
        self.update_monto_total(politica);
    }

    /// Removes the payment with the given id, and what it paid from the amount paid.
    pub fn eliminar_pago(&mut self, id: i64) -> (res: Result<(), AppError>)
        ensures
            match res {
                Ok(()) => exists|i: int| #[trigger] primer_pago(old(self)@, id, i)
                    && final(self)@ == sin_pago(old(self)@, i),
                Err(e) => e matches AppError::IncorrectError(_)
                    && (forall|j: int| 0 <= j < old(self)@.pagos.len() ==> #[trigger] old(self)@.pagos[j].id != id)
                    && final(self)@ == old(self)@,
            },
    {
        let mut i: usize = 0;
        while i < self.pagos.len()
            invariant
                self@ == old(self)@,
                i <= self@.pagos.len(),
                forall|j: int| 0 <= j < i ==> #[trigger] self@.pagos[j].id != id,
            decreases self@.pagos.len() - i,
        {
            if self.pagos[i].id() == id {
                proof {
                    assert(old(self)@.pagos[i as int] == self.pagos@[i as int]@);
                    assert(old(self)@.pagos[i as int].id == id);
                }
                let pago = self.pagos.remove(i);
                self.monto_pagado = self.monto_pagado.saturating_sub(pago.monto());
                proof {
                    assert(self@.pagos =~= old(self)@.pagos.remove(i as int));
                    assert(primer_pago(old(self)@, id, i as int));
                }
                return Ok(());
            }
            i += 1;
        }
        Err(AppError::IncorrectError("Error de id de pago".to_string()))
    }

    /// Takes one unit off the item at `index` (none when it has one unit or less) and
    /// recomputes the total; an index past the items is an error.
    pub fn restar_producto(&mut self, index: usize, politica: &u64) -> (res: Result<Venta, AppError>)
        requires
            index < old(self)@.productos.len() ==> montos_definidos(old(self)@.productos),
        ensures
            if index < old(self)@.productos.len() {
                &&& final(self)@ == con_items(old(self)@,
                    old(self)@.productos.update(index as int, decrementado(old(self)@.productos[index as int])),
                    *politica as int)
                &&& res matches Ok(v) && v@ == final(self)@
            } else {
                &&& final(self)@ == old(self)@
                &&& res matches Err(AppError::NotFound { objeto, instancia })
                    && objeto@ == "Indice"@ && instancia@ == decimal(index as nat)
            },
    {
        if self.productos.len() > index {
            let prod = self.productos.remove(index);
            let prod = match prod {
                Valuable::Pes(a) => if a.0 > 1000 { Valuable::Pes((a.0 - 1000, a.1)) } else { Valuable::Pes(a) },
                Valuable::Prod(a) => if a.0 > 1 { Valuable::Prod((a.0 - 1, a.1)) } else { Valuable::Prod(a) },
                Valuable::Rub(a) => if a.0 > 1 { Valuable::Rub((a.0 - 1, a.1)) } else { Valuable::Rub(a) },
            };
            self.productos.insert(index, prod);
            proof {
                assert(self@.productos =~= old(self)@.productos.update(index as int, decrementado(old(self)@.productos[index as int])));
            }
            self.update_monto_total(politica);
            Ok(self.copia())
        } else {
            Err(AppError::NotFound { objeto: "Indice".to_string(), instancia: natural_a_texto(index as u64) })
        }
    }

    /// Adds one unit to the item at `index` and recomputes the total; an index past the
    /// items is an error.
    pub fn incrementar_producto(&mut self, index: usize, politica: &u64) -> (res: Result<Venta, AppError>)
        requires
            index < old(self)@.productos.len() ==> puede_incrementarse(old(self)@.productos[index as int]),
            index < old(self)@.productos.len() ==> montos_definidos(old(self)@.productos),
        ensures
            if index < old(self)@.productos.len() {
                &&& final(self)@ == con_items(old(self)@,
                    old(self)@.productos.update(index as int, incrementado(old(self)@.productos[index as int])),
                    *politica as int)
                &&& res matches Ok(v) && v@ == final(self)@
            } else {
                &&& final(self)@ == old(self)@
                &&& res matches Err(AppError::NotFound { objeto, instancia })
                    && objeto@ == "Indice"@ && instancia@ == decimal(index as nat)
            },
    {
        if self.productos.len() > index {
            let prod = self.productos.remove(index);
            let prod = match prod {
                Valuable::Pes(a) => Valuable::Pes((a.0 + 1000, a.1)),
                Valuable::Prod(a) => Valuable::Prod((a.0 + 1, a.1)),
                Valuable::Rub(a) => Valuable::Rub((a.0 + 1, a.1)),
            };
            self.productos.insert(index, prod);
            proof {
                assert(self@.productos =~= old(self)@.productos.update(index as int, incrementado(old(self)@.productos[index as int])));
            }
            self.update_monto_total(politica);
            Ok(self.copia())
        } else {
            Err(AppError::NotFound { objeto: "Indice".to_string(), instancia: natural_a_texto(index as u64) })
        }
    }

    /// Sets the client of the sale: the id zero is the final consumer; any other id is the
    /// registered client found under it, and an error when none was found.
    pub fn set_cliente(&mut self, id: i64, encontrado: Option<Cli>) -> (res: Result<(), AppError>)
        ensures
            if id == 0 {
                res is Ok && final(self)@ == (VentaV { cliente: ClienteV::Final, ..old(self)@ })
            } else {
                match encontrado {
                    Some(c) => res is Ok && final(self)@ == (VentaV { cliente: ClienteV::Regular(c@), ..old(self)@ }),
                    None => final(self)@ == old(self)@ && (res matches Err(AppError::NotFound { objeto, instancia })
                        && objeto@ == "Cliente"@ && instancia@ == crate::texto::decimal_con_signo(id as int)),
                }
            },
    {
        if id == 0 {
            self.cliente = Cliente::Final;
            Ok(())
        } else {
            match encontrado {
                Some(cli) => {
                    self.cliente = Cliente::Regular(cli);
                    Ok(())
                },
                None => Err(AppError::NotFound {
                    objeto: "Cliente".to_string(),
                    instancia: crate::texto::entero_a_texto(id),
                }),
            }
        }
    }

    /// Removes the item at `index` and recomputes the total; an index past the items is an
    /// error.
    pub fn eliminar_producto(&mut self, index: usize, politica: &u64) -> (res: Result<Venta, AppError>)
        requires
            index < old(self)@.productos.len() ==> montos_definidos(old(self)@.productos),
        ensures
            if index < old(self)@.productos.len() {
                &&& final(self)@ == con_items(old(self)@, old(self)@.productos.remove(index as int), *politica as int)
                &&& res matches Ok(v) && v@ == final(self)@
            } else {
                &&& final(self)@ == old(self)@
                &&& res matches Err(AppError::NotFound { objeto, instancia })
                    && objeto@ == "Indice"@ && instancia@ == decimal(index as nat)
            },
    {
        if self.productos.len() > index {
            self.productos.remove(index);
            proof {
                assert(self@.productos =~= old(self)@.productos.remove(index as int));
            }
            self.update_monto_total(politica);
            Ok(self.copia())
        } else {
            Err(AppError::NotFound { objeto: "Indice".to_string(), instancia: natural_a_texto(index as u64) })
        }
    }

    /// The rows the sale at a position is stored in: the sale, its payments, and its
    /// products, departments and articles sold by weight, each kind in order.
    #[verifier::spinoff_prover]
    #[verifier::rlimit(50)]
    pub fn guardar(&self, pos: bool) -> (res: FilasVenta)
        ensures
            res.venta == fila_venta(self@, pos),
            res.pagos@ == self@.pagos.map_values(|p: PagoV| fila_pago(p, self@.id)),
            res.productos@ == filas_productos(self@.productos, self@.id),
            res.rubros@ == filas_rubros(self@.productos, self@.id),
            res.pesables@ == filas_pesables(self@.productos, self@.id),
            forall|i: int| 0 <= i < self@.productos.len() && (#[trigger] self@.productos[i] is Prod)
                ==> exists|k: int| 0 <= k < res.productos@.len() && crate::db::fila_de_producto(self@.productos[i], #[trigger] res.productos@[k], self@.id),
            forall|k: int| #![trigger res.productos@[k]] 0 <= k < res.productos@.len()
                ==> exists|i: int| #![trigger self@.productos[i]] 0 <= i < self@.productos.len()
                    && crate::db::fila_de_producto(self@.productos[i], res.productos@[k], self@.id),
            forall|i: int| 0 <= i < self@.productos.len() && (#[trigger] self@.productos[i] is Rub)
                ==> exists|k: int| 0 <= k < res.rubros@.len() && crate::db::fila_de_rubro(self@.productos[i], #[trigger] res.rubros@[k], self@.id),
            forall|k: int| #![trigger res.rubros@[k]] 0 <= k < res.rubros@.len()
                ==> exists|i: int| #![trigger self@.productos[i]] 0 <= i < self@.productos.len()
                    && crate::db::fila_de_rubro(self@.productos[i], res.rubros@[k], self@.id),
            forall|i: int| 0 <= i < self@.productos.len() && (#[trigger] self@.productos[i] is Pes)
                ==> exists|k: int| 0 <= k < res.pesables@.len() && crate::db::fila_de_pesable(self@.productos[i], #[trigger] res.pesables@[k], self@.id),
            forall|k: int| #![trigger res.pesables@[k]] 0 <= k < res.pesables@.len()
                ==> exists|i: int| #![trigger self@.productos[i]] 0 <= i < self@.productos.len()
                    && crate::db::fila_de_pesable(self@.productos[i], res.pesables@[k], self@.id),
    {
        let (cliente, paga) = match &self.cliente {
            Cliente::Final => (None, true),
            Cliente::Regular(c) => (Some(*c.id()), self.paga),
        };
        let venta = VentaDB {
            id: self.id,
            monto_total: self.monto_total,
            monto_pagado: self.monto_pagado,
            cliente,
            cerrada: self.cerrada,
            paga,
            pos,
        };
        let ghost ps = self@.pagos;
        let mut pagos: Vec<NuevoPagoDB> = Vec::new();
        let mut i: usize = 0;
        while i < self.pagos.len()
            invariant
                ps == self@.pagos,
                i <= ps.len(),
                pagos@ == ps.take(i as int).map_values(|p: PagoV| fila_pago(p, self@.id)),
            decreases ps.len() - i,
        {
            let p = &self.pagos[i];
            assert(ps[i as int] == self.pagos@[i as int]@);
            pagos.push(NuevoPagoDB { medio_pago: *p.medio_pago().id(), monto: p.monto(), pagado: Some(*p.pagado()), venta: self.id });
            proof {
                assert(pagos@ =~= ps.take(i + 1).map_values(|p: PagoV| fila_pago(p, self@.id)));
            }
            i += 1;
        }
        assert(ps.take(ps.len() as int) == ps);
        let ghost items = self@.productos;
        let mut productos: Vec<VentaProdDB> = Vec::new();
        let mut rubros: Vec<VentaRubDB> = Vec::new();
        let mut pesables: Vec<VentaPesDB> = Vec::new();
        let mut j: usize = 0;
        while j < self.productos.len()
            invariant
                items == self@.productos,
                j <= items.len(),
                productos@ == filas_productos(items.take(j as int), self@.id),
                rubros@ == filas_rubros(items.take(j as int), self@.id),
                pesables@ == filas_pesables(items.take(j as int), self@.id),
            decreases items.len() - j,
        {
            assert(items.take(j + 1).drop_last() == items.take(j as int));
            assert(items[j as int] == self.productos@[j as int]@);
            match &self.productos[j] {
                Valuable::Prod(a) => {
                    productos.push(VentaProdDB { producto: *a.1.id(), cantidad: a.0, precio: *a.1.precio_de_venta(), venta: self.id });
                },
                Valuable::Rub(a) => {
                    rubros.push(VentaRubDB { rubro: *a.1.id(), cantidad: a.0, precio: a.1.monto(), venta: self.id });
                },
                Valuable::Pes(a) => {
                    pesables.push(VentaPesDB { pesable: *a.1.id(), cantidad: a.0, precio: *a.1.precio_peso(), venta: self.id });
                },
            }
            j += 1;
        }
        assert(items.take(items.len() as int) == items);
        proof {
            lema_filas_de_venta(items, self@.id);
        }
        FilasVenta { venta, pagos, productos, rubros, pesables }
    }

    /// What storing the sale changes, given the id found for the means of payment of each
    /// payment. Each payment leaves a debt of its amount to a registered client. The sale
    /// must have a payment, and an amount for each of its departments.
    pub fn save(&self, medios: &Vec<i64>) -> (res: ActualizacionVenta)
        requires
            medios@.len() == self@.pagos.len(),
            self@.pagos.len() >= 1,
            montos_definidos(self@.productos),
        ensures
            res.monto_total == self@.monto_total,
            res.monto_pagado == self@.monto_pagado,
            res.cerrada == self@.cerrada,
            res.paga == self@.paga,
            res.cliente == match self@.cliente {
                ClienteV::Final => None,
                ClienteV::Regular(c) => Some(c.id),
            },
            res.pagos@ == Seq::new(self@.pagos.len(), |i: int| fila_pago_guardado(self@.pagos[i], medios@[i], self@.id)),
            res.deudas@ == match self@.cliente {
                ClienteV::Final => Seq::<DeudaDB>::empty(),
                ClienteV::Regular(c) => Seq::new(self@.pagos.len(), |i: int| DeudaDB { cliente: c.id, monto: self@.pagos[i].monto }),
            },
            res.productos@ == filas_productos(self@.productos, self@.id),
            res.rubros@ == filas_rubros(self@.productos, self@.id),
            res.pesables@ == filas_pesables(self@.productos, self@.id),
            forall|i: int| 0 <= i < res.rubros@.len() ==> (#[trigger] res.rubros@[i]).precio is Some,
    {
        let filas = self.guardar(true);
        let ghost ps = self@.pagos;
        let mut pagos: Vec<NuevoPagoDB> = Vec::new();
        let mut deudas: Vec<DeudaDB> = Vec::new();
        let mut i: usize = 0;
        while i < self.pagos.len()
            invariant
                ps == self@.pagos,
                medios@.len() == ps.len(),
                i <= ps.len(),
                pagos@ == Seq::new(i as nat, |k: int| fila_pago_guardado(ps[k], medios@[k], self@.id)),
                deudas@ == match self@.cliente {
                    ClienteV::Final => Seq::<DeudaDB>::empty(),
                    ClienteV::Regular(c) => Seq::new(i as nat, |k: int| DeudaDB { cliente: c.id, monto: ps[k].monto }),
                },
            decreases ps.len() - i,
        {
            let p = &self.pagos[i];
            assert(ps[i as int] == self.pagos@[i as int]@);
            let nombre = p.medio();
            let medio = if iguales(nombre.as_str(), CUENTA) { 0 } else { medios[i] };
            pagos.push(NuevoPagoDB { medio_pago: medio, monto: p.monto(), pagado: None, venta: self.id });
            match &self.cliente {
                Cliente::Final => {},
                Cliente::Regular(c) => {
                    deudas.push(DeudaDB { cliente: *c.id(), monto: p.monto() });
                },
            }
            proof {
                assert(pagos@ =~= Seq::new((i + 1) as nat, |k: int| fila_pago_guardado(ps[k], medios@[k], self@.id)));
                match self@.cliente {
                    ClienteV::Final => {},
                    ClienteV::Regular(c) => {
                        assert(deudas@ =~= Seq::new((i + 1) as nat, |k: int| DeudaDB { cliente: c.id, monto: ps[k].monto }));
                    },
                }
            }
            i += 1;
        }
        proof {
            lema_rubros_con_precio(self@.productos, self@.id);
        }
        let cliente = match &self.cliente {
            Cliente::Final => None,
            Cliente::Regular(c) => Some(*c.id()),
        };
        ActualizacionVenta {
            monto_total: self.monto_total,
            monto_pagado: self.monto_pagado,
            cerrada: self.cerrada,
            paga: self.paga,
            cliente,
            pagos,
            deudas,
            productos: filas.productos,
            rubros: filas.rubros,
            pesables: filas.pesables,
        }
    }
}

} // verus!
