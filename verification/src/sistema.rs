use vstd::prelude::*;
use crate::caja::{medios_conocidos, posicion, suma_montos, suma_totales, sumar_pagos, Caja, CajaV};
use crate::calculo::{redondeo_spec, saturar};
use crate::cliente::{Cli, ClienteV};
use crate::config::Config;
use crate::error::AppError;
use crate::pago::{MedioPago, Pago};
use crate::proveedor::{Proveedor, ProveedorV, RelacionProdProv, RelacionProdProvV};
use crate::error::ErrorEntero;
use crate::texto::{a_minusculas, contiene, contiene_spec, dividir, en_minusculas, entero_spec, iguales, parse_entero, partes};
use crate::user::{Rango, User, UserV};
use crate::valuable::{descripcion_spec, presentacion_de, Presentacion, Producto, ProductoV, Valuable, ValuableTrait};
use crate::venta::{
    admite_agregado, con_agregado, con_items, con_monto, montos_definidos, decrementado, incrementado, medio_registrado,
    pago_agregado, pago_permitido, primer_pago, puede_incrementarse, sin_pago, resto_spec, vista_usuario, Venta, VentaV,
};

verus! {

/// The abstract state of the point of sale.
pub struct SistemaV {
    pub user: Option<UserV>,
    pub caja: CajaV,
    pub configs: Config,
    pub ventas: (VentaV, VentaV),
    pub proveedores: Seq<ProveedorV>,
    pub relaciones: Seq<RelacionProdProvV>,
    pub stash: Seq<VentaV>,
    pub registro: Seq<VentaV>,
}

/// The point of sale: the user in session, the open cash register session, the settings,
/// the sales in progress at its two positions (`true` for the first), the sales parked for
/// later and the sales closed in this run.
pub struct Sistema {
    user: Option<User>,
    caja: Caja,
    configs: Config,
    ventas: (Venta, Venta),
    proveedores: Vec<Proveedor>,
    relaciones: Vec<RelacionProdProv>,
    stash: Vec<Venta>,
    registro: Vec<Venta>,
}

pub open spec fn vistas_ventas(vs: Seq<Venta>) -> Seq<VentaV> {
    vs.map_values(|v: Venta| v@)
}

impl View for Sistema {
    type V = SistemaV;

    closed spec fn view(&self) -> SistemaV {
        SistemaV {
            user: vista_usuario(self.user),
            caja: self.caja@,
            configs: self.configs,
            ventas: (self.ventas.0@, self.ventas.1@),
            proveedores: self.proveedores@.map_values(|p: Proveedor| p@),
            relaciones: self.relaciones@.map_values(|r: RelacionProdProv| r@),
            stash: vistas_ventas(self.stash@),
            registro: vistas_ventas(self.registro@),
        }
    }
}

/// The sale in progress at a position.
pub open spec fn venta_de(s: SistemaV, pos: bool) -> VentaV {
    if pos { s.ventas.0 } else { s.ventas.1 }
}

/// The state with the sale at a position replaced.
pub open spec fn con_venta(s: SistemaV, pos: bool, v: VentaV) -> SistemaV {
    SistemaV { ventas: if pos { (v, s.ventas.1) } else { (s.ventas.0, v) }, ..s }
}

/// A new empty sale under the given id, sold by the given user.
pub open spec fn venta_nueva(id: i32, vendedor: Option<UserV>) -> VentaV {
    VentaV {
        id,
        monto_total: 0,
        productos: Seq::empty(),
        pagos: Seq::empty(),
        monto_pagado: 0,
        vendedor,
        cliente: ClienteV::Final,
        paga: false,
        cerrada: false,
    }
}

/// A sale with its items and payments taken away.
pub open spec fn vaciada(v: VentaV) -> VentaV {
    VentaV { monto_pagado: 0, productos: Seq::empty(), monto_total: 0, pagos: Seq::empty(), ..v }
}

/// The cash register session after it took a closed sale: its total and each payment.
pub open spec fn caja_con_venta(c: CajaV, v: VentaV) -> CajaV {
    CajaV {
        ventas_totales: saturar(c.ventas_totales + v.monto_total) as u64,
        totales: sumar_pagos(c.totales, v.pagos),
        ..c
    }
}

/// The state after the sale `v` at a position closes: it goes to the record and to the
/// cash register, and a new empty sale of the user in session takes its place.
pub open spec fn cierre(s: SistemaV, pos: bool, v: VentaV, id_nueva: i32) -> SistemaV {
    SistemaV {
        registro: s.registro.push(v),
        caja: caja_con_venta(s.caja, v),
        ..con_venta(s, pos, venta_nueva(id_nueva, s.user))
    }
}

/// The means of payment a payment by `medio` has its total under in the register.
pub open spec fn medio_en_caja(c: CajaV, medio: Seq<char>) -> bool {
    posicion(c.totales, medio) is Some
}

/// Whether a payment of `monto` by `medio` at a position is refused as too large: only
/// cash may pay more than what is left to pay.
pub open spec fn excede(s: SistemaV, pos: bool, medio: Seq<char>, monto: u64) -> bool {
    let v = venta_de(s, pos);
    medio != "Efectivo"@ && v.monto_pagado + monto > v.monto_total
}

/// Only a payment that would take the amount paid strictly past the total is refused as
/// too large, and never one in cash: a payment that at most completes the total is taken.
pub proof fn lema_tope_de_pago(s: SistemaV, pos: bool, medio: Seq<char>, monto: u64)
    ensures
        venta_de(s, pos).monto_pagado + monto <= venta_de(s, pos).monto_total ==> !excede(s, pos, medio, monto),
        medio == "Efectivo"@ ==> !excede(s, pos, medio, monto),
        medio != "Efectivo"@ && venta_de(s, pos).monto_pagado + monto > venta_de(s, pos).monto_total
            ==> excede(s, pos, medio, monto),
{
}

/// Whether a payment of `monto` by `medio` at a position closes the sale.
pub open spec fn pago_cierra(s: SistemaV, pos: bool, medio: crate::pago::MedioPagoV, monto: u64) -> bool {
    let v = venta_de(s, pos);
    &&& !excede(s, pos, medio.medio, monto)
    &&& pago_permitido(v, medio)
    &&& v.monto_total - saturar(v.monto_pagado + monto) <= 0
}

/// The state after the sale at a position is parked and a new empty sale under
/// `id_nueva` takes its place.
pub open spec fn apartada(s: SistemaV, pos: bool, id_nueva: i32) -> SistemaV {
    SistemaV { stash: s.stash.push(venta_de(s, pos)), ..con_venta(s, pos, venta_nueva(id_nueva, s.user)) }
}

/// The state after the parked sale at `index` comes back to a position. The sale there,
/// when it has items, is parked at the end first.
pub open spec fn recuperada(s: SistemaV, pos: bool, index: int) -> SistemaV {
    let actual = venta_de(s, pos);
    let apartadas = if actual.productos.len() > 0 { s.stash.push(actual) } else { s.stash };
    SistemaV { stash: apartadas.remove(index), ..con_venta(s, pos, s.stash[index]) }
}

/// Parking the sale at a position and taking back the last parked sale gives back the
/// state as it was.
pub proof fn lema_apartar_y_recuperar(s: SistemaV, pos: bool, id_nueva: i32)
    ensures
        recuperada(apartada(s, pos, id_nueva), pos, s.stash.len() as int) == s,
{
    let a = apartada(s, pos, id_nueva);
    assert(a.stash.remove(s.stash.len() as int) =~= s.stash);
    assert(a.stash[s.stash.len() as int] == venta_de(s, pos));
}

/// Closing a sale moves it into the register: the sales total grows by the sale's total,
/// the totals by means of payment grow by what its payments amount to, and the sale joins
/// the record; when every payment has its means in the register and nothing runs past the
/// range of `u64`.
pub proof fn lema_cierre_a_la_caja(s: SistemaV, pos: bool, id_nueva: i32)
    requires
        medios_conocidos(s.caja.totales, venta_de(s, pos).pagos),
        suma_totales(s.caja.totales) + suma_montos(venta_de(s, pos).pagos) <= u64::MAX,
        s.caja.ventas_totales + venta_de(s, pos).monto_total <= u64::MAX,
    ensures
        ({
            let c = cierre(s, pos, venta_de(s, pos), id_nueva);
            &&& c.caja.ventas_totales == s.caja.ventas_totales + venta_de(s, pos).monto_total
            &&& suma_totales(c.caja.totales) == suma_totales(s.caja.totales) + suma_montos(venta_de(s, pos).pagos)
            &&& c.registro == s.registro.push(venta_de(s, pos))
            &&& c.stash == s.stash
        }),
{
    crate::caja::lema_totales_de_caja(s.caja.totales, venta_de(s, pos).pagos);
}

/// The supplier's code read from its text, when it is an integer.
pub open spec fn codigo_de(s: Seq<char>) -> Option<i64> {
    match entero_spec(s) {
        Ok(v) => Some(v as i64),
        Err(_) => None,
    }
}

/// The first error among the suppliers' codes that are given: an empty code is no code.
pub open spec fn error_codigos(cs: Seq<Seq<char>>) -> Option<ErrorEntero>
    decreases cs.len(),
{
    if cs.len() == 0 {
        None
    } else if cs[0].len() > 0 && entero_spec(cs[0]) is Err {
        Some(entero_spec(cs[0])->Err_0)
    } else {
        error_codigos(cs.drop_first())
    }
}

/// The relations of a new product with its suppliers, the supplier being told by its place
/// in the list and the code by the text at the same place.
pub open spec fn relaciones_nuevas(id_producto: i64, codigos_prov: Seq<Seq<char>>) -> Seq<RelacionProdProvV> {
    Seq::new(codigos_prov.len(), |i: int| RelacionProdProvV {
        id_producto,
        id_proveedor: i as i64,
        codigo_interno: codigo_de(codigos_prov[i]),
    })
}

/// Every bar code is an integer.
pub open spec fn codigos_validos(cs: Seq<Seq<char>>) -> bool {
    forall|i: int| 0 <= i < cs.len() ==> (#[trigger] entero_spec(cs[i])) is Ok
}

/// The texts held by the strings.
pub open spec fn textos(v: Seq<String>) -> Seq<Seq<char>> {
    v.map_values(|s: String| s@)
}

/// What the point of sale prepares when it starts: the settings to use (the default ones
/// when none were stored, and then they are written), the articles to load, the means of
/// payment to store, whether the current account must be stored under id zero, and, for a
/// store without users, the administrator to create.
pub struct Preparacion {
    pub configs: Vec<Config>,
    pub escribir_configs: bool,
    pub valuables: Vec<Valuable>,
    pub medios_nuevos: Vec<String>,
    pub cuenta_nueva: bool,
    pub admin: Option<User>,
}

/// The means of payment every store has.
pub open spec fn medios_basicos() -> Seq<Seq<char>> {
    seq!["Efectivo"@, "Crédito"@, "Débito"@]
}

/// The basic means of payment that are not stored yet, in order.
pub open spec fn medios_faltantes(guardados: Seq<Seq<char>>) -> Seq<Seq<char>> {
    medios_basicos().filter(|m: Seq<char>| !guardados.contains(m))
}

/// The articles to load: every product, article sold by weight and department, with no
/// quantity.
pub open spec fn articulos_iniciales(ps: Seq<ProductoV>, pes: Seq<crate::valuable::PesableV>, rubs: Seq<crate::valuable::RubroV>) -> Seq<crate::valuable::ValuableV> {
    ps.map_values(|p: ProductoV| crate::valuable::ValuableV::Prod(0, p))
        + pes.map_values(|p: crate::valuable::PesableV| crate::valuable::ValuableV::Pes(0, p))
        + rubs.map_values(|r: crate::valuable::RubroV| crate::valuable::ValuableV::Rub(0, r))
}

/// Whether the texts hold the text `t`.
fn contiene_texto(v: &Vec<String>, t: &str) -> (res: bool)
    ensures
        res == textos(v@).contains(t@),
{
    let mut i: usize = 0;
    while i < v.len()
        invariant
            i <= v@.len(),
            forall|j: int| 0 <= j < i ==> #[trigger] textos(v@)[j] != t@,
        decreases v@.len() - i,
    {
        if iguales(v[i].as_str(), t) {
            assert(textos(v@)[i as int] == t@);
            return true;
        }
        i += 1;
    }
    false
}

/// Whether one of the fields holds the word, both taken in lower case.
pub open spec fn coincide(campos: Seq<Seq<char>>, palabra: Seq<char>) -> bool {
    exists|j: int| 0 <= j < campos.len() && contiene_spec(en_minusculas(#[trigger] campos[j]), en_minusculas(palabra))
}

/// The first `n` elements, or all when there are fewer.
pub open spec fn tomar(s: Seq<int>, n: nat) -> Seq<int> {
    if n >= s.len() { s } else { s.take(n as int) }
}

/// The places of the first `n` rows of `len`, or of all when there are fewer.
pub open spec fn primeras(len: nat, n: nat) -> Seq<int> {
    Seq::new(if len < n { len } else { n }, |i: int| i)
}

/// The rows a search keeps, by their place: the first `2 * n` rows found for the first
/// word, then for each later word the first `n` of those kept whose fields hold it.
pub open spec fn refinado(filas: Seq<Seq<Seq<char>>>, palabras: Seq<Seq<char>>, n: nat) -> Seq<int>
    decreases palabras.len(),
{
    if palabras.len() <= 1 {
        primeras(filas.len(), 2 * n)
    } else {
        let previo = refinado(filas, palabras.drop_last(), n);
        tomar(previo.filter(|i: int| coincide(filas[i], palabras.last())), n)
    }
}

/// What a search asks the store for, from the text of a filter.
pub enum Busqueda {
    /// The article with this code.
    Codigo(i64),
    /// The rows whose fields hold the first of these words.
    Palabras(Vec<String>),
}

/// The abstract value of a search.
pub enum BusquedaV {
    Codigo(i64),
    Palabras(Seq<Seq<char>>),
}

impl View for Busqueda {
    type V = BusquedaV;

    open spec fn view(&self) -> BusquedaV {
        match self {
            Busqueda::Codigo(c) => BusquedaV::Codigo(*c),
            Busqueda::Palabras(ps) => BusquedaV::Palabras(textos(ps@)),
        }
    }
}

/// A text that reads as an integer searches by code; any other, by its words.
pub open spec fn busqueda_de(texto: Seq<char>) -> BusquedaV {
    match entero_spec(texto) {
        Ok(c) => BusquedaV::Codigo(c as i64),
        Err(_) => BusquedaV::Palabras(partes(texto, ' ')),
    }
}

/// The places of the rows a search keeps: the first row found by code, or those `refinado`
/// keeps for the words.
pub open spec fn elegidos(b: BusquedaV, filas: Seq<Seq<Seq<char>>>, n: nat) -> Seq<int> {
    match b {
        BusquedaV::Codigo(_) => primeras(filas.len(), 1),
        BusquedaV::Palabras(ps) => refinado(filas, ps, n),
    }
}

/// The fields a search looks at in a product: brand, variety and kind.
pub open spec fn campos_producto(p: ProductoV) -> Seq<Seq<char>> {
    seq![p.marca, p.variedad, p.tipo_producto]
}

/// Whole units of a quantity in thousandths, held at 255.
pub open spec fn unidades_spec(milesimas: u32) -> u8 {
    (if milesimas / 1000 > 255 { 255 } else { milesimas / 1000 }) as u8
}

/// Places in increasing order.
pub open spec fn ordenados(s: Seq<int>) -> bool {
    forall|a: int, b: int| 0 <= a < b < s.len() ==> s[a] < s[b]
}

/// Filtering places in increasing order keeps them in order, keeps only those that pass,
/// and keeps what held of each of them.
proof fn lema_filtro_ordenado(s: Seq<int>, pred: spec_fn(int) -> bool, q: spec_fn(int) -> bool)
    requires
        forall|k: int| 0 <= k < s.len() ==> q(#[trigger] s[k]),
        ordenados(s),
    ensures
        forall|k: int| 0 <= k < s.filter(pred).len() ==> q(#[trigger] s.filter(pred)[k]) && pred(s.filter(pred)[k]),
        ordenados(s.filter(pred)),
        s.len() > 0 ==> forall|k: int| 0 <= k < s.filter(pred).len() ==> #[trigger] s.filter(pred)[k] <= s.last(),
    decreases s.len(),
{
    reveal_with_fuel(Seq::<_>::filter, 1);
    if s.len() > 0 {
        let d = s.drop_last();
        assert forall|k: int| 0 <= k < d.len() implies q(#[trigger] d[k]) by {
            assert(d[k] == s[k]);
        }
        lema_filtro_ordenado(d, pred, q);
        let sub = d.filter(pred);
        if d.len() > 0 {
            assert(d.last() < s.last());
        }
        if pred(s.last()) {
            let f = sub.push(s.last());
            assert(s.filter(pred) == f);
            assert forall|k: int| 0 <= k < f.len() implies #[trigger] f[k] <= s.last() by {
                if k < sub.len() {
                    assert(sub[k] <= d.last());
                }
            }
            assert forall|a: int, b: int| 0 <= a < b < f.len() implies f[a] < f[b] by {
                if b == sub.len() {
                    assert(sub[a] <= d.last());
                }
            }
        } else {
            assert(s.filter(pred) == sub);
            assert forall|k: int| 0 <= k < sub.len() implies #[trigger] sub[k] <= s.last() by {
                assert(sub[k] <= d.last());
            }
        }
    }
}

/// A search by words keeps rows the store gave back, each once and in the order given;
/// it keeps at most `2 * n`, with more than one word at most `n`, and every row kept holds, in one of its
/// fields, every word after the first.
pub proof fn lema_refinado(filas: Seq<Seq<Seq<char>>>, palabras: Seq<Seq<char>>, n: nat)
    ensures
        ordenados(refinado(filas, palabras, n)),
        forall|k: int| 0 <= k < refinado(filas, palabras, n).len() ==> 0 <= #[trigger] refinado(filas, palabras, n)[k] < filas.len(),
        refinado(filas, palabras, n).len() <= 2 * n,
        palabras.len() >= 2 ==> refinado(filas, palabras, n).len() <= n,
        forall|k: int, j: int| 0 <= k < refinado(filas, palabras, n).len() && 1 <= j < palabras.len()
            ==> #[trigger] coincide(filas[refinado(filas, palabras, n)[k]], #[trigger] palabras[j]),
    decreases palabras.len(),
{
    let r = refinado(filas, palabras, n);
    if palabras.len() > 1 {
        let pd = palabras.drop_last();
        lema_refinado(filas, pd, n);
        let prev = refinado(filas, pd, n);
        let pal = palabras.last();
        let pred = |i: int| coincide(filas[i], pal);
        let q = |i: int| 0 <= i < filas.len() && forall|j: int| 1 <= j < pd.len() ==> #[trigger] coincide(filas[i], pd[j]);
        assert forall|k: int| 0 <= k < prev.len() implies q(#[trigger] prev[k]) by {
            assert forall|j: int| 1 <= j < pd.len() implies #[trigger] coincide(filas[prev[k]], pd[j]) by {
                assert(coincide(filas[prev[k]], pd[j]));
            }
        }
        lema_filtro_ordenado(prev, pred, q);
        let f = prev.filter(pred);
        assert(r == tomar(f, n));
        assert forall|k: int| 0 <= k < r.len() implies q(#[trigger] r[k]) && pred(r[k]) by {
            assert(r[k] == f[k]);
        }
        assert forall|k: int, j: int| 0 <= k < r.len() && 1 <= j < palabras.len()
            implies #[trigger] coincide(filas[r[k]], #[trigger] palabras[j]) by {
            assert(q(r[k]) && pred(r[k]));
            if j < pd.len() {
                assert(pd[j] == palabras[j]);
                assert(coincide(filas[r[k]], pd[j]));
            }
        }
        assert forall|a: int, b: int| 0 <= a < b < r.len() implies r[a] < r[b] by {
            assert(r[a] == f[a] && r[b] == f[b]);
        }
    }
}

/// Filtering a first part of a sequence gives a first part of filtering the whole.
proof fn lema_filtro_prefijo(s: Seq<int>, pred: spec_fn(int) -> bool, k: int)
    requires
        0 <= k <= s.len(),
    ensures
        s.take(k).filter(pred).len() <= s.filter(pred).len(),
        forall|i: int| 0 <= i < s.take(k).filter(pred).len() ==> #[trigger] s.take(k).filter(pred)[i] == s.filter(pred)[i],
    decreases s.len(),
{
    reveal_with_fuel(Seq::<_>::filter, 1);
    if k == s.len() {
        assert(s.take(k) =~= s);
    } else {
        let d = s.drop_last();
        assert(s.take(k) =~= d.take(k));
        lema_filtro_prefijo(d, pred, k);
        let fd = d.filter(pred);
        if pred(s.last()) {
            assert(s.filter(pred) == fd.push(s.last()));
            assert forall|i: int| 0 <= i < s.take(k).filter(pred).len() implies #[trigger] s.take(k).filter(pred)[i] == s.filter(pred)[i] by {
                assert(fd.push(s.last())[i] == fd[i]);
            }
        } else {
            assert(s.filter(pred) == fd);
        }
    }
}

/// With more than one word, a search keeps the first `n` of the rows kept for the earlier
/// words that hold the last one: such a row is kept whenever fewer than `n` of those rows
/// before it hold the last word, so the search comes back empty only when none holds it.
pub proof fn lema_refinado_primeros(filas: Seq<Seq<Seq<char>>>, palabras: Seq<Seq<char>>, n: nat, k: int)
    requires
        palabras.len() >= 2,
        0 <= k < refinado(filas, palabras.drop_last(), n).len(),
        coincide(filas[refinado(filas, palabras.drop_last(), n)[k]], palabras.last()),
        refinado(filas, palabras.drop_last(), n).take(k).filter(|i: int| coincide(filas[i], palabras.last())).len() < n,
    ensures
        refinado(filas, palabras, n).contains(refinado(filas, palabras.drop_last(), n)[k]),
{
    let prev = refinado(filas, palabras.drop_last(), n);
    let pred = |i: int| coincide(filas[i], palabras.last());
    let f = prev.filter(pred);
    let a = prev.take(k).filter(pred);
    reveal_with_fuel(Seq::<_>::filter, 1);
    assert(prev.take(k + 1).drop_last() =~= prev.take(k));
    assert(prev.take(k + 1).last() == prev[k]);
    assert(prev.take(k + 1).filter(pred) == a.push(prev[k]));
    lema_filtro_prefijo(prev, pred, k + 1);
    assert(prev.take(k + 1).filter(pred)[a.len() as int] == prev[k]);
    assert(f[a.len() as int] == prev[k]);
    let r = refinado(filas, palabras, n);
    assert(r == tomar(f, n));
    assert(r[a.len() as int] == prev[k]);
}

/// What a search keeps stays within its bounds: by code, one row at most; by words, at
/// most `2 * n` rows, at most `n` with more than one word, and every row kept holds every
/// word after the first in one of its fields.
pub open spec fn busqueda_acotada(b: BusquedaV, filas: Seq<Seq<Seq<char>>>, n: nat, idx: Seq<int>) -> bool {
    &&& b is Codigo ==> idx.len() <= 1
    &&& b matches BusquedaV::Palabras(ps) ==> {
        &&& idx.len() <= 2 * n
        &&& ps.len() >= 2 ==> idx.len() <= n
        &&& forall|k: int, j: int| 0 <= k < idx.len() && 1 <= j < ps.len()
            ==> #[trigger] coincide(filas[idx[k]], #[trigger] ps[j])
    }
}

proof fn lema_elegidos(b: BusquedaV, filas: Seq<Seq<Seq<char>>>, n: nat)
    ensures
        busqueda_acotada(b, filas, n, elegidos(b, filas, n)),
{
    match b {
        BusquedaV::Codigo(_) => {},
        BusquedaV::Palabras(ps) => lema_refinado(filas, ps, n),
    }
}

/// A search filter split at `*`: the text of the quantity before it, if there is one, and
/// the text searched after it; more than one `*` is no filter.
pub open spec fn filtro_spec(filtro: Seq<char>) -> Option<(Option<Seq<char>>, Seq<char>)> {
    let p = partes(filtro, '*');
    if p.len() == 1 {
        Some((None, p[0]))
    } else if p.len() == 2 {
        Some((Some(p[0]), p[1]))
    } else {
        None
    }
}

/// Whether one of the fields holds the word in lower case (`palabra` is already in lower
/// case).
fn coincide_exec(campos: &Vec<String>, palabra: &str, Ghost(original): Ghost<Seq<char>>) -> (res: bool)
    requires
        palabra@ == en_minusculas(original),
    ensures
        res == coincide(textos(campos@), original),
{
    let mut j: usize = 0;
    while j < campos.len()
        invariant
            palabra@ == en_minusculas(original),
            j <= campos@.len(),
            forall|k: int| 0 <= k < j ==> !contiene_spec(en_minusculas(#[trigger] textos(campos@)[k]), en_minusculas(original)),
        decreases campos@.len() - j,
    {
        let campo = a_minusculas(campos[j].as_str());
        assert(textos(campos@)[j as int] == campos@[j as int]@);
        if contiene(campo.as_str(), palabra) {
            return true;
        }
        j += 1;
    }
    false
}

/// No text appears twice.
pub open spec fn sin_repetir(v: Seq<Seq<char>>) -> bool {
    forall|i: int, j: int| 0 <= i < j < v.len() ==> v[i] != v[j]
}

proof fn lema_contiene_push(s: Seq<Seq<char>>, x: Seq<char>, t: Seq<char>)
    ensures
        s.push(x).contains(t) <==> (s.contains(t) || t == x),
{
    if s.push(x).contains(t) {
        let k = choose|k: int| 0 <= k < s.push(x).len() && #[trigger] s.push(x)[k] == t;
        if k < s.len() {
            assert(s[k] == t);
        }
    }
    if s.contains(t) {
        let k = choose|k: int| 0 <= k < s.len() && #[trigger] s[k] == t;
        assert(s.push(x)[k] == t);
    }
    if t == x {
        assert(s.push(x)[s.len() as int] == t);
    }
}

/// The texts, each once.
fn distintos(v: &Vec<String>) -> (res: Vec<String>)
    ensures
        sin_repetir(textos(res@)),
        forall|t: Seq<char>| textos(res@).contains(t) <==> textos(v@).contains(t),
{
    let mut res: Vec<String> = Vec::new();
    let mut i: usize = 0;
    while i < v.len()
        invariant
            i <= v@.len(),
            sin_repetir(textos(res@)),
            forall|t: Seq<char>| textos(res@).contains(t) <==> textos(v@.take(i as int)).contains(t),
        decreases v@.len() - i,
    {
        let ghost antes = textos(res@);
        proof {
            assert(textos(v@.take(i + 1)) =~= textos(v@.take(i as int)).push(v@[i as int]@));
        }
        if !contiene_texto(&res, v[i].as_str()) {
            res.push(v[i].clone());
            proof {
                let r = textos(res@);
                let vi = v@[i as int]@;
                let w0 = textos(v@.take(i as int));
                let w1 = textos(v@.take(i + 1));
                assert(r =~= antes.push(vi));
                assert(w1 =~= w0.push(vi));
                assert forall|t: Seq<char>| r.contains(t) <==> w1.contains(t) by {
                    lema_contiene_push(antes, vi, t);
                    lema_contiene_push(w0, vi, t);
                }
            }
        } else {
            proof {
                let w0 = textos(v@.take(i as int));
                let w1 = textos(v@.take(i + 1));
                assert forall|t: Seq<char>| antes.contains(t) <==> w1.contains(t) by {
                    if w1.contains(t) {
                        let k = choose|k: int| 0 <= k < w1.len() && #[trigger] w1[k] == t;
                        if k < i {
                            assert(w0[k] == t);
                        }
                    }
                    if w0.contains(t) {
                        let k = choose|k: int| 0 <= k < w0.len() && #[trigger] w0[k] == t;
                        assert(w1[k] == t);
                    }
                }
            }
        }
        i += 1;
    }
    assert(v@.take(v@.len() as int) =~= v@);
    res
}

/// The places `0..n`, in order.
fn todos(n: usize) -> (res: Vec<usize>)
    ensures
        res@.map_values(|i: usize| i as int) == Seq::new(n as nat, |i: int| i),
        forall|k: int| 0 <= k < res@.len() ==> #[trigger] res@[k] < n,
{
    let mut res: Vec<usize> = Vec::new();
    let mut i: usize = 0;
    while i < n
        invariant
            i <= n,
            res@.map_values(|x: usize| x as int) == Seq::new(i as nat, |k: int| k),
            forall|k: int| 0 <= k < res@.len() ==> #[trigger] res@[k] < i,
        decreases n - i,
    {
        let ghost antes = res@.map_values(|x: usize| x as int);
        res.push(i);
        proof {
            assert(res@.map_values(|x: usize| x as int) =~= antes.push(i as int));
            assert(res@.map_values(|x: usize| x as int) =~= Seq::new((i + 1) as nat, |k: int| k));
        }
        i += 1;
    }
    res
}

/// The places of the rows a search keeps, given the fields of each row the store gave
/// back for it.
fn indices_elegidos(busqueda: &Busqueda, filas: &Vec<Vec<String>>, cantidad: usize) -> (res: Vec<usize>)
    ensures
        res@.map_values(|i: usize| i as int) == elegidos(busqueda@, filas@.map_values(|f: Vec<String>| textos(f@)), cantidad as nat),
        forall|k: int| 0 <= k < res@.len() ==> #[trigger] res@[k] < filas@.len(),
{
    match busqueda {
        Busqueda::Codigo(_) => todos(if filas.len() < 1 { filas.len() } else { 1 }),
        Busqueda::Palabras(ps) => Sistema::refinar(filas, ps, cantidad),
    }
}

/// A product with its sale price rounded to the policy.
pub open spec fn redondeado(p: ProductoV, politica: u64) -> ProductoV {
    ProductoV { precio_de_venta: saturar(redondeo_spec(politica as int, p.precio_de_venta as int)) as u64, ..p }
}

impl Sistema {
    /// The point of sale with nobody in session, from the stored register session,
    /// settings, sales in progress, suppliers and supplier relations.
    pub fn new(
        caja: Caja,
        configs: Config,
        ventas: (Venta, Venta),
        proveedores: Vec<Proveedor>,
        relaciones: Vec<RelacionProdProv>,
    ) -> (res: Sistema)
        ensures
            res@ == (SistemaV {
                user: None,
                caja: caja@,
                configs,
                ventas: (ventas.0@, ventas.1@),
                proveedores: proveedores@.map_values(|p: Proveedor| p@),
                relaciones: relaciones@.map_values(|r: RelacionProdProv| r@),
                stash: Seq::empty(),
                registro: Seq::empty(),
            }),
    {
        let res = Sistema {
            user: None,
            caja,
            configs,
            ventas,
            proveedores,
            relaciones,
            stash: Vec::new(),
            registro: Vec::new(),
        };
        assert(res@.stash =~= Seq::empty());
        assert(res@.registro =~= Seq::empty());
        res
    }

    /// Requires a session: the operations of a cashier need a user in session.
    pub fn access(&self)
        requires
            self@.user is Some,
    {
    }

    pub fn user(&self) -> (res: Option<User>)
        ensures
            vista_usuario(res) == self@.user,
    {
        match &self.user {
            Some(u) => Some(u.copia()),
            None => None,
        }
    }

    /// Whether a user is in session.
    pub fn get_logged_state(&self) -> (res: bool)
        ensures
            res == self@.user is Some,
    {
        self.user.is_some()
    }

    /// The user in session.
    pub fn arc_user(&self) -> (res: User)
        requires
            self@.user is Some,
        ensures
            Some(res@) == self@.user,
    {
        self.user.as_ref().unwrap().copia()
    }

    pub fn caja(&self) -> (res: &Caja)
        ensures
            res@ == self@.caja,
    {
        &self.caja
    }

    pub fn configs(&self) -> (res: &Config)
        ensures
            *res == self@.configs,
    {
        &self.configs
    }

    pub fn set_configs(&mut self, configs: Config)
        ensures
            final(self)@ == (SistemaV { configs, ..old(self)@ }),
    {
        self.configs = configs;
    }

    pub fn stash(&self) -> (res: &Vec<Venta>)
        ensures
            vistas_ventas(res@) == self@.stash,
    {
        &self.stash
    }

    /// The sales closed since the point of sale started.
    pub fn registro(&self) -> (res: &Vec<Venta>)
        ensures
            vistas_ventas(res@) == self@.registro,
    {
        &self.registro
    }

    /// A copy of the sale in progress at a position.
    pub fn venta(&self, pos: bool) -> (res: Venta)
        ensures
            res@ == venta_de(self@, pos),
    {
        if pos {
            self.ventas.0.copia()
        } else {
            self.ventas.1.copia()
        }
    }

    fn set_venta(&mut self, pos: bool, venta: Venta)
        ensures
            final(self)@ == con_venta(old(self)@, pos, venta@),
    {
        if pos {
            self.ventas.0 = venta;
        } else {
            self.ventas.1 = venta;
        }
    }

    /// Ends the session.
    pub fn cerrar_sesion(&mut self)
        ensures
            final(self)@ == (SistemaV { user: None, ..old(self)@ }),
    {
        self.user = None;
    }

    /// Empties the sale in progress at a position.
    pub fn cancelar_venta(&mut self, pos: bool) -> (res: Result<(), AppError>)
        ensures
            res is Ok,
            final(self)@ == con_venta(old(self)@, pos, vaciada(venta_de(old(self)@, pos))),
    {
        if pos {
            self.ventas.0.empty();
        } else {
            self.ventas.1.empty();
        }
        Ok(())
    }

    /// Closes the sale at a position: it goes to the record and to the register, and a new
    /// empty sale under `id_nueva` takes its place.
    fn cerrar_venta(&mut self, pos: bool, id_nueva: i32)
        requires
            old(self)@.user is Some,
            medios_conocidos(old(self)@.caja.totales, venta_de(old(self)@, pos).pagos),
        ensures
            final(self)@ == cierre(old(self)@, pos, venta_de(old(self)@, pos), id_nueva),
    {
        let venta = self.venta(pos);
        let pagos = venta.pagos();
        self.caja.update_total(venta.monto_total(), &pagos);
        self.registro.push(venta);
        let nueva = Venta::new(id_nueva, Some(self.arc_user()));
        self.set_venta(pos, nueva);
        proof {
            assert(self@.registro =~= old(self)@.registro.push(venta_de(old(self)@, pos)));
        }
    }

    /// Adds a payment to the sale at a position. A payment other than cash may not exceed
    /// what is left to pay; past that the sale takes it as `Venta::agregar_pago` does. A
    /// payment that closes the sale sends it to the record and to the register, and a new
    /// empty sale under `id_nueva` takes its place. The result is what was left to pay.
    pub fn agregar_pago(&mut self, medio_pago: MedioPago, monto: u64, pos: bool, id_nueva: i32) -> (res: Result<i128, AppError>)
        requires
            pago_cierra(old(self)@, pos, medio_pago@, monto) ==> ({
                &&& old(self)@.user is Some
                &&& medios_conocidos(old(self)@.caja.totales, venta_de(old(self)@, pos).pagos)
                &&& medio_en_caja(old(self)@.caja, medio_registrado(medio_pago@).medio)
            }),
        ensures
            ({
                let v = venta_de(old(self)@, pos);
                if excede(old(self)@, pos, medio_pago@.medio, monto) {
                    &&& res matches Err(AppError::AmountError { a_pagar, pagado })
                        && a_pagar == v.monto_total - v.monto_pagado && pagado == monto
                    &&& final(self)@ == old(self)@
                } else if !pago_permitido(v, medio_pago@) {
                    &&& res matches Err(AppError::IncorrectError(_))
                    &&& final(self)@ == old(self)@
                } else {
                    let cerro = pago_cierra(old(self)@, pos, medio_pago@, monto);
                    let w = if cerro { final(self)@.registro.last() } else { venta_de(final(self)@, pos) };
                    &&& pago_agregado(v, w, medio_pago@, monto)
                    &&& res == Ok::<i128, AppError>(resto_spec(w) as i128)
                    &&& cerro == (resto_spec(w) <= 0)
                    &&& if cerro {
                        final(self)@ == cierre(old(self)@, pos, w, id_nueva)
                    } else {
                        final(self)@ == con_venta(old(self)@, pos, w)
                    }
                }
            }),
            venta_de(old(self)@, pos).monto_pagado + monto <= venta_de(old(self)@, pos).monto_total
                ==> !(res matches Err(AppError::AmountError { .. })),
            res matches Err(AppError::AmountError { .. }) ==> medio_pago@.medio != "Efectivo"@
                && venta_de(old(self)@, pos).monto_pagado + monto > venta_de(old(self)@, pos).monto_total,
    {
        let (pagado, total) = if pos {
            (self.ventas.0.monto_pagado(), self.ventas.0.monto_total())
        } else {
            (self.ventas.1.monto_pagado(), self.ventas.1.monto_total())
        };
        let nombre = medio_pago.desc();
        if !iguales(nombre.as_str(), "Efectivo") && pagado as u128 + monto as u128 > total as u128 {
            return Err(AppError::AmountError { a_pagar: total as i128 - pagado as i128, pagado: monto });
        }
        let ghost antes = self@;
        let res = if pos {
            self.ventas.0.agregar_pago(medio_pago, monto)
        } else {
            self.ventas.1.agregar_pago(medio_pago, monto)
        };
        match res {
            Ok(a) => {
                if a <= 0 {
                    proof {
                        let w = venta_de(self@, pos);
                        assert(w.pagos == venta_de(antes, pos).pagos.push(w.pagos.last()));
                        assert forall|i: int| 0 <= i < w.pagos.len() implies
                            (#[trigger] posicion(self@.caja.totales, w.pagos[i].medio_pago.medio)) is Some by {
                            if i < w.pagos.len() - 1 {
                                assert(w.pagos[i] == venta_de(antes, pos).pagos[i]);
                            }
                        }
                    }
                    self.cerrar_venta(pos, id_nueva);
                }
                Ok(a)
            },
            Err(e) => Err(e),
        }
    }

    /// Removes the payment with the given id from the sale at a position; the result is the
    /// payments left.
    pub fn eliminar_pago(&mut self, pos: bool, id: i64) -> (res: Result<Vec<Pago>, AppError>)
        ensures
            ({
                let v = venta_de(old(self)@, pos);
                match res {
                    Ok(pagos) => exists|i: int| #[trigger] primer_pago(v, id, i)
                        && final(self)@ == con_venta(old(self)@, pos, sin_pago(v, i))
                        && pagos@.map_values(|p: Pago| p@) == sin_pago(v, i).pagos,
                    Err(e) => e matches AppError::IncorrectError(_)
                        && (forall|j: int| 0 <= j < v.pagos.len() ==> #[trigger] v.pagos[j].id != id)
                        && final(self)@ == old(self)@,
                }
            }),
    {
        let r = if pos {
            self.ventas.0.eliminar_pago(id)
        } else {
            self.ventas.1.eliminar_pago(id)
        };
        match r {
            Ok(()) => {
                let pagos = self.venta(pos).pagos();
                Ok(pagos)
            },
            Err(e) => Err(e),
        }
    }

    /// Parks the sale at a position for later; a new empty sale under `id_nueva` takes its
    /// place.
    pub fn stash_sale(&mut self, pos: bool, id_nueva: i32) -> (res: Result<(), AppError>)
        requires
            old(self)@.user is Some,
        ensures
            res is Ok,
            final(self)@ == apartada(old(self)@, pos, id_nueva),
    {
        let venta = self.venta(pos);
        self.stash.push(venta);
        let nueva = Venta::new(id_nueva, Some(self.arc_user()));
        self.set_venta(pos, nueva);
        proof {
            assert(self@.stash =~= old(self)@.stash.push(venta_de(old(self)@, pos)));
        }
        Ok(())
    }

    /// Takes the parked sale at `index` back to a position. The sale there, when it has
    /// items, is parked in its place at the end of the parked sales; an index past the
    /// parked sales is an error.
    pub fn unstash_sale(&mut self, pos: bool, index: usize) -> (res: Result<(), AppError>)
        ensures
            if index < old(self)@.stash.len() {
                &&& res is Ok
                &&& final(self)@ == recuperada(old(self)@, pos, index as int)
            } else {
                &&& res matches Err(AppError::SaleSelection)
                &&& final(self)@ == old(self)@
            },
    {
        if index < self.stash.len() {
            let actual = self.venta(pos);
            if actual.cantidad_productos() > 0 {
                self.stash.push(actual);
                proof {
                    assert(self@.stash =~= old(self)@.stash.push(venta_de(old(self)@, pos)));
                }
            }
            let ghost apartadas = self@.stash;
            let venta = self.stash.remove(index);
            proof {
                assert(self@.stash =~= apartadas.remove(index as int));
                assert(venta@ == apartadas[index as int]);
                assert(apartadas[index as int] == old(self)@.stash[index as int]);
            }
            self.set_venta(pos, venta);
            Ok(())
        } else {
            Err(AppError::SaleSelection)
        }
    }

    /// Takes one unit off the item at `index` of the sale at a position.
    pub fn descontar_producto_de_venta(&mut self, index: usize, pos: bool) -> (res: Result<Venta, AppError>)
        requires
            index < venta_de(old(self)@, pos).productos.len() ==> montos_definidos(venta_de(old(self)@, pos).productos),
        ensures
            ({
                let v = venta_de(old(self)@, pos);
                if index < v.productos.len() {
                    let w = con_items(v, v.productos.update(index as int, decrementado(v.productos[index as int])),
                        old(self)@.configs.politica_spec() as int);
                    &&& final(self)@ == con_venta(old(self)@, pos, w)
                    &&& res matches Ok(r) && r@ == w
                } else {
                    &&& final(self)@ == old(self)@
                    &&& res matches Err(AppError::NotFound { objeto, instancia })
                        && objeto@ == "Indice"@ && instancia@ == crate::texto::decimal(index as nat)
                }
            }),
    {
        let politica = self.configs.politica();
        if pos {
            self.ventas.0.restar_producto(index, &politica)
        } else {
            self.ventas.1.restar_producto(index, &politica)
        }
    }

    /// Adds one unit to the item at `index` of the sale at a position.
    pub fn incrementar_producto_a_venta(&mut self, index: usize, pos: bool) -> (res: Result<Venta, AppError>)
        requires
            index < venta_de(old(self)@, pos).productos.len()
                ==> puede_incrementarse(venta_de(old(self)@, pos).productos[index as int]),
            index < venta_de(old(self)@, pos).productos.len() ==> montos_definidos(venta_de(old(self)@, pos).productos),
        ensures
            ({
                let v = venta_de(old(self)@, pos);
                if index < v.productos.len() {
                    let w = con_items(v, v.productos.update(index as int, incrementado(v.productos[index as int])),
                        old(self)@.configs.politica_spec() as int);
                    &&& final(self)@ == con_venta(old(self)@, pos, w)
                    &&& res matches Ok(r) && r@ == w
                } else {
                    &&& final(self)@ == old(self)@
                    &&& res matches Err(AppError::NotFound { objeto, instancia })
                        && objeto@ == "Indice"@ && instancia@ == crate::texto::decimal(index as nat)
                }
            }),
    {
        let politica = self.configs.politica();
        if pos {
            self.ventas.0.incrementar_producto(index, &politica)
        } else {
            self.ventas.1.incrementar_producto(index, &politica)
        }
    }

    /// Removes the item at `index` of the sale at a position; a sale of one item or none is
    /// emptied instead, whatever the index.
    pub fn eliminar_producto_de_venta(&mut self, index: usize, pos: bool) -> (res: Result<Venta, AppError>)
        requires
            1 < venta_de(old(self)@, pos).productos.len() && index < venta_de(old(self)@, pos).productos.len()
                ==> montos_definidos(venta_de(old(self)@, pos).productos),
        ensures
            ({
                let v = venta_de(old(self)@, pos);
                if v.productos.len() <= 1 {
                    &&& final(self)@ == con_venta(old(self)@, pos, vaciada(v))
                    &&& res matches Ok(r) && r@ == vaciada(v)
                } else if index < v.productos.len() {
                    let w = con_items(v, v.productos.remove(index as int), old(self)@.configs.politica_spec() as int);
                    &&& final(self)@ == con_venta(old(self)@, pos, w)
                    &&& res matches Ok(r) && r@ == w
                } else {
                    &&& final(self)@ == old(self)@
                    &&& res matches Err(AppError::NotFound { objeto, instancia })
                        && objeto@ == "Indice"@ && instancia@ == crate::texto::decimal(index as nat)
                }
            }),
    {
        let politica = self.configs.politica();
        if pos {
            if self.ventas.0.cantidad_productos() > 1 {
                self.ventas.0.eliminar_producto(index, &politica)
            } else {
                self.ventas.0.empty();
                Ok(self.ventas.0.copia())
            }
        } else {
            if self.ventas.1.cantidad_productos() > 1 {
                self.ventas.1.eliminar_producto(index, &politica)
            } else {
                self.ventas.1.empty();
                Ok(self.ventas.1.copia())
            }
        }
    }

    /// Adds an article to the sale at a position, when the store still has it (`existe`);
    /// otherwise the article is reported as not found under its description.
    pub fn agregar_producto_a_venta(&mut self, prod: Valuable, pos: bool, existe: bool) -> (res: Result<(), AppError>)
        requires
            existe ==> admite_agregado(venta_de(old(self)@, pos).productos, prod@),
            existe ==> montos_definidos(venta_de(old(self)@, pos).productos),
            existe ==> con_monto(prod@),
        ensures
            ({
                let v = venta_de(old(self)@, pos);
                if existe {
                    &&& res is Ok
                    &&& final(self)@ == con_venta(old(self)@, pos,
                        con_items(v, con_agregado(v.productos, prod@), old(self)@.configs.politica_spec() as int))
                } else {
                    &&& final(self)@ == old(self)@
                    &&& res matches Err(AppError::NotFound { objeto, instancia })
                        && objeto@ == "Producto"@
                        && instancia@ == descripcion_spec(prod@, old(self)@.configs.formato_spec())
                }
            }),
    {
        if existe {
            let politica = self.configs.politica();
            if pos {
                self.ventas.0.agregar_producto(prod, &politica);
            } else {
                self.ventas.1.agregar_producto(prod, &politica);
            }
            Ok(())
        } else {
            Err(AppError::NotFound { objeto: "Producto".to_string(), instancia: prod.descripcion(&self.configs) })
        }
    }

    /// Sets the client of the sale at a position: the id zero is the final consumer; any
    /// other id is the registered client found under it, and an error when none was found.
    pub fn set_cliente(&mut self, id: i64, pos: bool, encontrado: Option<Cli>) -> (res: Result<(), AppError>)
        ensures
            ({
                let v = venta_de(old(self)@, pos);
                if id == 0 {
                    res is Ok && final(self)@ == con_venta(old(self)@, pos, VentaV { cliente: ClienteV::Final, ..v })
                } else {
                    match encontrado {
                        Some(c) => res is Ok
                            && final(self)@ == con_venta(old(self)@, pos, VentaV { cliente: ClienteV::Regular(c@), ..v }),
                        None => final(self)@ == old(self)@ && (res matches Err(AppError::NotFound { objeto, instancia })
                            && objeto@ == "Cliente"@ && instancia@ == crate::texto::decimal_con_signo(id as int)),
                    }
                }
            }),
    {
        if pos {
            self.ventas.0.set_cliente(id, encontrado)
        } else {
            self.ventas.1.set_cliente(id, encontrado)
        }
    }

    /// Logs in. `encontrado` is the user stored under the id and password given, with the
    /// sales in progress at each position for that user; without it the login fails on the
    /// password when the id exists (`id_existe`) and on the user otherwise.
    pub fn try_login(&mut self, encontrado: Option<(User, Venta, Venta)>, id_existe: bool) -> (res: Result<Rango, AppError>)
        ensures
            match encontrado {
                Some((u, a, b)) => res == Ok::<Rango, AppError>(u@.rango)
                    && final(self)@ == (SistemaV { user: Some(u@), ventas: (a@, b@), ..old(self)@ }),
                None => final(self)@ == old(self)@ && (res matches Err(AppError::IncorrectError(m))
                    && m@ == (if id_existe { "Contraseña"@ } else { "Usuario"@ })),
            },
    {
        match encontrado {
            Some((u, a, b)) => {
                let rango = *u.rango();
                self.user = Some(u);
                self.ventas = (a, b);
                Ok(rango)
            },
            None => {
                if id_existe {
                    Err(AppError::IncorrectError("Contraseña".to_string()))
                } else {
                    Err(AppError::IncorrectError("Usuario".to_string()))
                }
            },
        }
    }

    /// Closes the register session with the cash counted at the end, in the name of the user
    /// in session, and opens the next one with that cash: it carries the sales total and the
    /// cashier, and starts a zero total for each means of payment of the settings, each
    /// means once.
    pub fn cerrar_caja(&mut self, monto_actual: u64, ahora: i64) -> (res: Result<(), AppError>)
        requires
            old(self)@.user is Some,
            old(self)@.caja.id < i64::MAX,
        ensures
            res is Ok,
            final(self)@ == (SistemaV {
                caja: CajaV {
                    id: (old(self)@.caja.id + 1) as i64,
                    inicio: ahora,
                    cierre: None,
                    ventas_totales: old(self)@.caja.ventas_totales,
                    monto_inicio: monto_actual,
                    monto_cierre: None,
                    cajero: Some(old(self)@.user->0.nombre),
                    totales: crate::caja::totales_en_cero(old(self)@.configs.medios_spec()),
                },
                ..old(self)@
            }),
    {
        let nombre = self.user.as_ref().unwrap().nombre();
        self.caja.set_cajero(nombre);
        self.caja.set_n_save(monto_actual, ahora);
        let cerrada = self.caja.copia();
        match Caja::new(Some(cerrada), Some(monto_actual), &self.configs, ahora) {
            Ok(c) => {
                self.caja = c;
                Ok(())
            },
            Err(e) => Err(e),
        }
    }

    /// Registers a new product stored under `id`, with a user in session; `existente` tells
    /// whether one of its bar codes is already registered, which refuses it. Its
    /// descriptions go to lower case, its bar codes are read as integers and its
    /// presentation from the unit name and the amount in thousandths. Each supplier in the list is related to it with the code at the same
    /// place, and a given code that is not an integer is an error. Prices are in cents.
    pub fn agregar_producto(
        &mut self,
        id: i64,
        proveedores: &Vec<String>,
        codigos_prov: &Vec<String>,
        codigos_de_barras: &Vec<String>,
        precio_de_venta: u64,
        porcentaje: u64,
        precio_de_costo: u64,
        tipo_producto: &str,
        marca: &str,
        variedad: &str,
        cantidad: u32,
        presentacion: &str,
        existente: bool,
    ) -> (res: Result<Producto, AppError>)
        requires
            old(self)@.user is Some,
            proveedores@.len() == codigos_prov@.len(),
            codigos_validos(textos(codigos_de_barras@)),
            presentacion_de(presentacion@, cantidad) is Some,
        ensures
            existente ==> (res matches Err(AppError::IncorrectError(m)) && m@ == "Producto existente"@
                && final(self)@ == old(self)@),
            !existente ==> match error_codigos(textos(codigos_prov@)) {
                Some(e) => res == Err::<Producto, AppError>(AppError::ParseIntError(e))
                    && final(self)@ == old(self)@,
                None => res matches Ok(p) && p@ == (ProductoV {
                        id,
                        codigos_de_barras: textos(codigos_de_barras@).map_values(|c: Seq<char>| entero_spec(c)->Ok_0 as i64),
                        precio_de_venta,
                        porcentaje,
                        precio_de_costo,
                        tipo_producto: en_minusculas(tipo_producto@),
                        marca: en_minusculas(marca@),
                        variedad: en_minusculas(variedad@),
                        presentacion: presentacion_de(presentacion@, cantidad)->0,
                    })
                    && final(self)@ == (SistemaV {
                        relaciones: old(self)@.relaciones + relaciones_nuevas(id, textos(codigos_prov@)),
                        ..old(self)@
                    }),
            },
    {
        if existente {
            return Err(AppError::IncorrectError("Producto existente".to_string()));
        }
        self.alta_producto(id, proveedores, codigos_prov, codigos_de_barras, precio_de_venta, porcentaje,
            precio_de_costo, tipo_producto, marca, variedad, cantidad, presentacion)
    }

    /// Registers a new product whose bar codes are all new: see `agregar_producto`.
    fn alta_producto(
        &mut self,
        id: i64,
        proveedores: &Vec<String>,
        codigos_prov: &Vec<String>,
        codigos_de_barras: &Vec<String>,
        precio_de_venta: u64,
        porcentaje: u64,
        precio_de_costo: u64,
        tipo_producto: &str,
        marca: &str,
        variedad: &str,
        cantidad: u32,
        presentacion: &str,
    ) -> (res: Result<Producto, AppError>)
        requires
            proveedores@.len() == codigos_prov@.len(),
            codigos_validos(textos(codigos_de_barras@)),
            presentacion_de(presentacion@, cantidad) is Some,
        ensures
            match error_codigos(textos(codigos_prov@)) {
                Some(e) => res == Err::<Producto, AppError>(AppError::ParseIntError(e))
                    && final(self)@ == old(self)@,
                None => res matches Ok(p) && p@ == (ProductoV {
                        id,
                        codigos_de_barras: textos(codigos_de_barras@).map_values(|c: Seq<char>| entero_spec(c)->Ok_0 as i64),
                        precio_de_venta,
                        porcentaje,
                        precio_de_costo,
                        tipo_producto: en_minusculas(tipo_producto@),
                        marca: en_minusculas(marca@),
                        variedad: en_minusculas(variedad@),
                        presentacion: presentacion_de(presentacion@, cantidad)->0,
                    })
                    && final(self)@ == (SistemaV {
                        relaciones: old(self)@.relaciones + relaciones_nuevas(id, textos(codigos_prov@)),
                        ..old(self)@
                    }),
            },
    {
        let tipo_producto = a_minusculas(tipo_producto);
        let marca = a_minusculas(marca);
        let variedad = a_minusculas(variedad);
        let ghost cb = textos(codigos_de_barras@);
        let mut codigos: Vec<i64> = Vec::new();
        let mut i: usize = 0;
        while i < codigos_de_barras.len()
            invariant
                cb == textos(codigos_de_barras@),
                codigos_validos(cb),
                i <= cb.len(),
                codigos@ == cb.take(i as int).map_values(|c: Seq<char>| entero_spec(c)->Ok_0 as i64),
            decreases cb.len() - i,
        {
            assert(cb[i as int] == codigos_de_barras@[i as int]@);
            assert(entero_spec(cb[i as int]) is Ok);
            match parse_entero(codigos_de_barras[i].as_str()) {
                Ok(c) => codigos.push(c),
                Err(_) => {
                    assert(false);
                },
            }
            proof {
                assert(codigos@ =~= cb.take(i + 1).map_values(|c: Seq<char>| entero_spec(c)->Ok_0 as i64));
            }
            i += 1;
        }
        assert(cb.take(cb.len() as int) == cb);
        let presentacion = match Presentacion::build(presentacion, cantidad) {
            Ok(p) => p,
            Err(_) => {
                assert(false);
                Presentacion::Un(0)
            },
        };
        let ghost cp = textos(codigos_prov@);
        assert(cp.skip(0) == cp);
        let mut j: usize = 0;
        while j < codigos_prov.len()
            invariant
                cp == textos(codigos_prov@),
                j <= cp.len(),
                error_codigos(cp) == error_codigos(cp.skip(j as int)),
            decreases cp.len() - j,
        {
            assert(cp.skip(j as int)[0] == codigos_prov@[j as int]@);
            assert(cp.skip(j as int).drop_first() == cp.skip(j + 1));
            if !codigos_prov[j].as_str().is_empty() {
                match parse_entero(codigos_prov[j].as_str()) {
                    Ok(_) => {},
                    Err(e) => {
                        return Err(AppError::ParseIntError(e));
                    },
                }
            }
            j += 1;
        }
        assert(cp.skip(cp.len() as int).len() == 0);
        let producto = Producto::new(
            id,
            codigos,
            precio_de_venta,
            porcentaje,
            precio_de_costo,
            tipo_producto.as_str(),
            marca.as_str(),
            variedad.as_str(),
            presentacion,
        );
        let ghost antes = self@.relaciones;
        let mut k: usize = 0;
        while k < proveedores.len()
            invariant
                cp == textos(codigos_prov@),
                proveedores@.len() == cp.len(),
                k <= cp.len(),
                self@ == (SistemaV { relaciones: self@.relaciones, ..old(self)@ }),
                antes == old(self)@.relaciones,
                self@.relaciones == antes + relaciones_nuevas(id, cp).take(k as int),
            decreases cp.len() - k,
        {
            let codigo = match parse_entero(codigos_prov[k].as_str()) {
                Ok(a) => Some(a),
                Err(_) => None,
            };
            assert(cp[k as int] == codigos_prov@[k as int]@);
            assert(codigo == codigo_de(cp[k as int]));
            let r = RelacionProdProv::new(id, k as i64, codigo);
            assert(r@ == relaciones_nuevas(id, cp)[k as int]);
            let ghost previas = self@.relaciones;
            self.relaciones.push(r);
            proof {
                assert(self@.relaciones =~= previas.push(r@));
                assert(relaciones_nuevas(id, cp).take(k + 1) =~= relaciones_nuevas(id, cp).take(k as int).push(r@));
                assert(self@.relaciones =~= antes + relaciones_nuevas(id, cp).take(k + 1));
            }
            k += 1;
        }
        assert(relaciones_nuevas(id, cp).take(cp.len() as int) == relaciones_nuevas(id, cp));
        Ok(producto)
    }

    /// Prepares the start of the point of sale from the stored settings, articles, names of
    /// the means of payment and number of users: see `Preparacion`. The administrator has
    /// the id "admin", the name "Admin" and the password "1234".
    pub fn procesar(
        configs: Vec<Config>,
        productos: Vec<Producto>,
        pesables: Vec<crate::valuable::Pesable>,
        rubros: Vec<crate::valuable::Rubro>,
        medios_guardados: &Vec<String>,
        usuarios: u64,
    ) -> (res: Preparacion)
        ensures
            configs@.len() == 0 ==> res.escribir_configs && res.configs@.len() == 1
                && res.configs@[0].politica_spec() == 1000
                && res.configs@[0].formato_spec() == crate::config::Formato::Tmv
                && res.configs@[0].mayus_spec() == crate::config::Mayusculas::Upper
                && res.configs@[0].cantidad_spec() == 20
                && res.configs@[0].medios_spec() == medios_basicos(),
            configs@.len() > 0 ==> !res.escribir_configs && res.configs@ == configs@,
            res.valuables@.map_values(|v: Valuable| v@) == articulos_iniciales(
                productos@.map_values(|p: Producto| p@),
                pesables@.map_values(|p: crate::valuable::Pesable| p@),
                rubros@.map_values(|r: crate::valuable::Rubro| r@)),
            res.medios_nuevos@.map_values(|m: String| m@) == medios_faltantes(textos(medios_guardados@)),
            res.cuenta_nueva == !textos(medios_guardados@).contains(crate::venta::CUENTA@),
            usuarios == 0 ==> (res.admin matches Some(u) && u@ == (UserV {
                id: "admin"@,
                nombre: "Admin"@,
                pass: crate::clave::hash_de("1234"@),
                rango: Rango::Admin,
            })),
            usuarios != 0 ==> res.admin is None,
    {
        let mut configs = configs;
        let escribir_configs = configs.len() == 0;
        if escribir_configs {
            configs.push(Config::default());
        }
        let mut valuables: Vec<Valuable> = Vec::new();
        let ghost ps = productos@.map_values(|p: Producto| p@);
        let ghost pes = pesables@.map_values(|p: crate::valuable::Pesable| p@);
        let ghost rubs = rubros@.map_values(|r: crate::valuable::Rubro| r@);
        let mut productos = productos;
        let mut i: usize = 0;
        while i < productos.len()
            invariant
                ps == productos@.map_values(|p: Producto| p@),
                i <= ps.len(),
                valuables@.map_values(|v: Valuable| v@) == ps.take(i as int).map_values(|p: ProductoV| crate::valuable::ValuableV::Prod(0, p)),
            decreases ps.len() - i,
        {
            let ghost antes = valuables@.map_values(|v: Valuable| v@);
            valuables.push(Valuable::Prod((0, productos[i].copia())));
            proof {
                assert(valuables@.map_values(|v: Valuable| v@) =~= antes.push(crate::valuable::ValuableV::Prod(0, ps[i as int])));
                assert(ps.take(i + 1).map_values(|p: ProductoV| crate::valuable::ValuableV::Prod(0, p))
                    =~= ps.take(i as int).map_values(|p: ProductoV| crate::valuable::ValuableV::Prod(0, p)).push(crate::valuable::ValuableV::Prod(0, ps[i as int])));
            }
            i += 1;
        }
        assert(ps.take(ps.len() as int) =~= ps);
        let ghost a = valuables@.map_values(|v: Valuable| v@);
        let mut j: usize = 0;
        while j < pesables.len()
            invariant
                pes == pesables@.map_values(|p: crate::valuable::Pesable| p@),
                j <= pes.len(),
                valuables@.map_values(|v: Valuable| v@) == a + pes.take(j as int).map_values(|p: crate::valuable::PesableV| crate::valuable::ValuableV::Pes(0, p)),
            decreases pes.len() - j,
        {
            let ghost antes = valuables@.map_values(|v: Valuable| v@);
            valuables.push(Valuable::Pes((0, pesables[j].copia())));
            proof {
                assert(valuables@.map_values(|v: Valuable| v@) =~= antes.push(crate::valuable::ValuableV::Pes(0, pes[j as int])));
                assert(pes.take(j + 1).map_values(|p: crate::valuable::PesableV| crate::valuable::ValuableV::Pes(0, p))
                    =~= pes.take(j as int).map_values(|p: crate::valuable::PesableV| crate::valuable::ValuableV::Pes(0, p)).push(crate::valuable::ValuableV::Pes(0, pes[j as int])));
            }
            j += 1;
        }
        assert(pes.take(pes.len() as int) =~= pes);
        let ghost b = valuables@.map_values(|v: Valuable| v@);
        let mut k: usize = 0;
        while k < rubros.len()
            invariant
                rubs == rubros@.map_values(|r: crate::valuable::Rubro| r@),
                k <= rubs.len(),
                valuables@.map_values(|v: Valuable| v@) == b + rubs.take(k as int).map_values(|r: crate::valuable::RubroV| crate::valuable::ValuableV::Rub(0, r)),
            decreases rubs.len() - k,
        {
            let ghost antes = valuables@.map_values(|v: Valuable| v@);
            valuables.push(Valuable::Rub((0, rubros[k].copia())));
            proof {
                assert(valuables@.map_values(|v: Valuable| v@) =~= antes.push(crate::valuable::ValuableV::Rub(0, rubs[k as int])));
                assert(rubs.take(k + 1).map_values(|r: crate::valuable::RubroV| crate::valuable::ValuableV::Rub(0, r))
                    =~= rubs.take(k as int).map_values(|r: crate::valuable::RubroV| crate::valuable::ValuableV::Rub(0, r)).push(crate::valuable::ValuableV::Rub(0, rubs[k as int])));
            }
            k += 1;
        }
        assert(rubs.take(rubs.len() as int) =~= rubs);
        assert(valuables@.map_values(|v: Valuable| v@) =~= articulos_iniciales(ps, pes, rubs));
        let mut medios_nuevos: Vec<String> = Vec::new();
        let basicos: [&str; 3] = ["Efectivo", "Crédito", "Débito"];
        let ghost g = textos(medios_guardados@);
        let mut m: usize = 0;
        while m < 3
            invariant
                g == textos(medios_guardados@),
                m <= 3,
                basicos@.len() == 3,
                forall|x: int| 0 <= x < 3 ==> #[trigger] basicos@[x]@ == medios_basicos()[x],
                medios_nuevos@.map_values(|t: String| t@) == medios_basicos().take(m as int).filter(|t: Seq<char>| !g.contains(t)),
            decreases 3 - m,
        {
            let esta = contiene_texto(medios_guardados, basicos[m]);
            if !esta {
                let ghost antes = medios_nuevos@.map_values(|t: String| t@);
                medios_nuevos.push(basicos[m].to_string());
                assert(medios_nuevos@.map_values(|t: String| t@) =~= antes.push(medios_basicos()[m as int]));
            }
            proof {
                reveal_with_fuel(Seq::<_>::filter, 1);
                assert(medios_basicos().take(m + 1).drop_last() =~= medios_basicos().take(m as int));
            }
            m += 1;
        }
        assert(medios_basicos().take(3) =~= medios_basicos());
        let cuenta_nueva = !contiene_texto(medios_guardados, crate::venta::CUENTA);
        let admin = if usuarios == 0 {
            proof {
                reveal_strlit("Admin");
            }
            Some(User::build("admin", "Admin", crate::clave::get_hash("1234"), "Admin"))
        } else {
            None
        };
        Preparacion { configs, escribir_configs, valuables, medios_nuevos, cuenta_nueva, admin }
    }

    /// Splits a search filter at `*`: the text of the quantity before it, if there is one,
    /// and the text after it; more than one `*` is an error. The quantity is a
    /// floating-point number (as `str::parse::<f32>` reads it), which its callers read.
    pub fn splitx(filtro: &str) -> (res: Result<(Option<String>, String), AppError>)
        ensures
            match filtro_spec(filtro@) {
                Some((c, t)) => res matches Ok((c2, t2)) && t2@ == t && match c {
                    Some(c) => c2 matches Some(x) && x@ == c,
                    None => c2 is None,
                },
                None => res matches Err(AppError::ParseError),
            },
    {
        let mut p = dividir(filtro, '*');
        if p.len() == 1 {
            assert(p@[0]@ == partes(filtro@, '*')[0]);
            let t = p.remove(0);
            Ok((None, t))
        } else if p.len() == 2 {
            assert(p@[0]@ == partes(filtro@, '*')[0]);
            assert(p@[1]@ == partes(filtro@, '*')[1]);
            let t = p.remove(1);
            let c = p.remove(0);
            Ok((Some(c), t))
        } else {
            Err(AppError::ParseError)
        }
    }

    /// The rows a search keeps, by their place, given the fields of each row found for the
    /// first word: see `refinado`. `cantidad` is the number of products a search shows.
    pub fn refinar(filas: &Vec<Vec<String>>, palabras: &Vec<String>, cantidad: usize) -> (res: Vec<usize>)
        ensures
            res@.map_values(|i: usize| i as int) == refinado(
                filas@.map_values(|f: Vec<String>| textos(f@)),
                textos(palabras@),
                cantidad as nat),
            forall|k: int| 0 <= k < res@.len() ==> #[trigger] res@[k] < filas@.len(),
    {
        let ghost fs = filas@.map_values(|f: Vec<String>| textos(f@));
        let ghost ws = textos(palabras@);
        let mut actual: Vec<usize> = Vec::new();
        let mut i: usize = 0;
        while i < filas.len() && i / 2 < cantidad
            invariant
                i <= filas@.len(),
                i <= 2 * cantidad,
                actual@.map_values(|x: usize| x as int) == Seq::new(i as nat, |k: int| k),
            decreases filas@.len() - i,
        {
            let ghost antes = actual@.map_values(|x: usize| x as int);
            actual.push(i);
            proof {
                assert(actual@.map_values(|x: usize| x as int) =~= antes.push(i as int));
                assert(actual@.map_values(|x: usize| x as int) =~= Seq::new((i + 1) as nat, |k: int| k));
            }
            i += 1;
        }
        proof {
            if ws.len() >= 1 {
                assert(ws.take(1).len() == 1);
                assert(refinado(fs, ws.take(1), cantidad as nat) == primeras(fs.len(), 2 * cantidad as nat));
            }
            assert forall|k: int| 0 <= k < actual@.len() implies #[trigger] actual@[k] < filas@.len() by {
                assert(actual@.map_values(|x: usize| x as int)[k] == k);
            }
        }
        let mut w: usize = 1;
        while w < palabras.len()
            invariant
                fs == filas@.map_values(|f: Vec<String>| textos(f@)),
                ws == textos(palabras@),
                1 <= w,
                w <= palabras@.len() || palabras@.len() == 0,
                palabras@.len() >= 1 ==> actual@.map_values(|x: usize| x as int) == refinado(fs, ws.take(w as int), cantidad as nat),
                palabras@.len() == 0 ==> actual@.map_values(|x: usize| x as int) == primeras(fs.len(), 2 * cantidad as nat),
                forall|k: int| 0 <= k < actual@.len() ==> #[trigger] actual@[k] < filas@.len(),
            decreases palabras@.len() - w,
        {
            let palabra = a_minusculas(palabras[w].as_str());
            let ghost previo = actual@.map_values(|x: usize| x as int);
            let ghost pal = ws[w as int];
            assert(pal == palabras@[w as int]@);
            let mut nuevo: Vec<usize> = Vec::new();
            let mut k: usize = 0;
            while k < actual.len()
                invariant
                    fs == filas@.map_values(|f: Vec<String>| textos(f@)),
                    previo == actual@.map_values(|x: usize| x as int),
                    palabra@ == en_minusculas(pal),
                    k <= actual@.len(),
                    forall|j: int| 0 <= j < actual@.len() ==> #[trigger] actual@[j] < filas@.len(),
                    forall|j: int| 0 <= j < nuevo@.len() ==> #[trigger] nuevo@[j] < filas@.len(),
                    nuevo@.map_values(|x: usize| x as int) == tomar(previo.take(k as int).filter(|i: int| coincide(fs[i], pal)), cantidad as nat),
                decreases actual@.len() - k,
            {
                let idx = actual[k];
                assert(fs[idx as int] == textos(filas@[idx as int]@));
                let si = coincide_exec(&filas[idx], palabra.as_str(), Ghost(pal));
                let ghost antes = nuevo@.map_values(|x: usize| x as int);
                proof {
                    reveal_with_fuel(Seq::<_>::filter, 1);
                    assert(previo.take(k + 1).drop_last() =~= previo.take(k as int));
                    assert(previo.take(k + 1).last() == idx as int);
                }
                if si && nuevo.len() < cantidad {
                    nuevo.push(idx);
                    proof {
                        assert(nuevo@.map_values(|x: usize| x as int) =~= antes.push(idx as int));
                    }
                }
                proof {
                    let g = |i: int| coincide(fs[i], pal);
                    let a = previo.take(k as int).filter(g);
                    let b = previo.take(k + 1).filter(g);
                    if si {
                        assert(b =~= a.push(idx as int));
                        if a.len() >= cantidad {
                            assert(tomar(b, cantidad as nat) =~= tomar(a, cantidad as nat));
                        }
                    } else {
                        assert(b =~= a);
                    }
                }
                k += 1;
            }
            proof {
                assert(previo.take(previo.len() as int) =~= previo);
                assert(ws.take(w + 1).drop_last() =~= ws.take(w as int));
                assert(ws.take(w + 1).last() == pal);
            }
            actual = nuevo;
            w += 1;
        }
        proof {
            if palabras@.len() >= 1 {
                assert(ws.take(ws.len() as int) =~= ws);
            }
        }
        actual
    }

    /// The brands found, each once.
    pub fn filtrar_marca(encontradas: &Vec<String>) -> (res: Vec<String>)
        ensures
            sin_repetir(textos(res@)),
            forall|t: Seq<char>| textos(res@).contains(t) <==> textos(encontradas@).contains(t),
    {
        distintos(encontradas)
    }

    /// The kinds of product found, each once.
    pub fn filtrar_tipo_producto(encontrados: &Vec<String>) -> (res: Vec<String>)
        ensures
            sin_repetir(textos(res@)),
            forall|t: Seq<char>| textos(res@).contains(t) <==> textos(encontrados@).contains(t),
    {
        distintos(encontrados)
    }

    /// Registers a user with the hash of the password given.
    pub fn agregar_usuario(&self, id: &str, nombre: &str, pass: &str, rango: &str, existente: bool) -> (res: Result<User, AppError>)
        requires
            !existente ==> crate::user::rango_de_nombre(rango@) is Some,
        ensures
            if existente {
                res matches Err(AppError::IncorrectError(m)) && m@ == "Usuario existente"@
            } else {
                res matches Ok(u) && u@ == (UserV {
                    id: id@,
                    nombre: nombre@,
                    pass: crate::clave::hash_de(pass@),
                    rango: crate::user::rango_de_nombre(rango@)->0,
                })
            },
    {
        User::new_to_db(id, nombre, crate::clave::get_hash(pass), rango, existente)
    }

    /// Registers an article sold by weight, with a user in session: see
    /// `Pesable::new_to_db`.
    pub fn agregar_pesable(
        &self,
        codigo: i64,
        precio_peso: u64,
        porcentaje: u64,
        costo_kilo: u64,
        descripcion: &str,
        existente: bool,
        id: i64,
    ) -> (res: Result<crate::valuable::Pesable, AppError>)
        requires
            self@.user is Some,
        ensures
            if existente {
                res matches Err(AppError::ExistingError { objeto, instancia })
                    && objeto@ == "Pesable"@ && instancia@ == crate::texto::decimal_con_signo(codigo as int)
            } else {
                res matches Ok(p) && p@ == (crate::valuable::PesableV {
                    id, codigo, precio_peso, porcentaje, costo_kilo, descripcion: descripcion@,
                })
            },
    {
        crate::valuable::Pesable::new_to_db(codigo, precio_peso, porcentaje, costo_kilo, descripcion, existente, id)
    }

    /// Registers a department, with a user in session: see `Rubro::new_to_db`.
    pub fn agregar_rubro(
        &self,
        codigo: i64,
        monto: Option<u64>,
        descripcion: &str,
        encontrado: Option<crate::db::CodeDB>,
        id: i64,
    ) -> (res: Result<crate::valuable::Rubro, AppError>)
        requires
            self@.user is Some,
        ensures
            match encontrado {
                Some(c) => res matches Err(AppError::IncorrectError(m)) && m@ == (if c.rubro is Some {
                    "rubro existente"@
                } else {
                    "existe el codigo pero no corresponde a un rubro"@
                }),
                None => res matches Ok(r) && r@ == (crate::valuable::RubroV { id, codigo, monto, descripcion: descripcion@ }),
            },
    {
        crate::valuable::Rubro::new_to_db(codigo, monto, descripcion, encontrado, id)
    }

    /// Registers a client at the time `ahora`, with a user in session: see `Cli::new_to_db`.
    pub fn agregar_cliente(
        &self,
        nombre: &str,
        dni: i64,
        credito: bool,
        activo: bool,
        limite: Option<u64>,
        ahora: i64,
        existente: bool,
        id: i64,
    ) -> (res: Result<Cli, AppError>)
        requires
            self@.user is Some,
        ensures
            if existente {
                res matches Err(AppError::ExistingError { objeto, instancia })
                    && objeto@ == "Cliente"@ && instancia@ == crate::texto::decimal_con_signo(dni as int)
            } else {
                res matches Ok(c) && c@ == (crate::cliente::CliV {
                    id, nombre: nombre@, dni, credito, activo, created: ahora, limite: crate::cliente::cuenta_de(limite),
                })
            },
    {
        Cli::new_to_db(nombre, dni, credito, activo, ahora, limite, existente, id)
    }

    /// Registers a supplier: see `Proveedor::new_to_db`.
    pub fn agregar_proveedor(&mut self, proveedor: &str, contacto: Option<i64>, existente: bool, id: i32) -> (res: Result<(), AppError>)
        requires
            old(self)@.user is Some,
        ensures
            final(self)@ == old(self)@,
            existente <==> (res matches Err(AppError::ExistingError { objeto, instancia })
                && objeto@ == "Proveedor"@ && instancia@ == proveedor@),
            !existente ==> res is Ok,
    {
        match Proveedor::new_to_db(proveedor, contacto, existente, id) {
            Ok(_) => Ok(()),
            Err(e) => Err(e),
        }
    }

    /// The clients of the stored rows, in order.
    pub fn get_clientes(&self, filas: &Vec<crate::db::ClienteDB>) -> (res: Vec<Cli>)
        requires
            self@.user is Some,
        ensures
            res@.len() == filas@.len(),
            forall|i: int| 0 <= i < filas@.len() ==> ClienteV::Regular(#[trigger] res@[i]@) == crate::db::cliente_leido(Some(filas@[i])),
    {
        let mut res: Vec<Cli> = Vec::new();
        let mut i: usize = 0;
        while i < filas.len()
            invariant
                i <= filas@.len(),
                res@.len() == i,
                forall|k: int| 0 <= k < i ==> ClienteV::Regular(#[trigger] res@[k]@) == crate::db::cliente_leido(Some(filas@[k])),
            decreases filas@.len() - i,
        {
            let f = &filas[i];
            res.push(Cli::new(f.id, f.nombre.as_str(), f.dni, f.credito, f.activo, f.time, f.limite));
            i += 1;
        }
        res
    }

    /// The client stored in the row found for an id; the row must be there.
    pub fn get_cliente(fila: Option<crate::db::ClienteDB>) -> (res: crate::cliente::Cliente)
        requires
            fila is Some,
        ensures
            res@ == crate::db::cliente_leido(fila),
    {
        let f = fila.unwrap();
        crate::cliente::Cliente::Regular(Cli::build(f.id, f.nombre.as_str(), f.dni, f.credito, f.activo, f.time, f.limite))
    }

    /// The suppliers of the stored rows, in order.
    pub fn proveedores(filas: &Vec<crate::db::ProvDB>) -> (res: Vec<Proveedor>)
        ensures
            res@.len() == filas@.len(),
            forall|i: int| 0 <= i < filas@.len() ==> (#[trigger] res@[i]@) == (ProveedorV {
                id: filas@[i].id, nombre: filas@[i].nombre@, contacto: filas@[i].contacto,
            }),
    {
        let mut res: Vec<Proveedor> = Vec::new();
        let mut i: usize = 0;
        while i < filas.len()
            invariant
                i <= filas@.len(),
                res@.len() == i,
                forall|k: int| 0 <= k < i ==> (#[trigger] res@[k]@) == (ProveedorV {
                    id: filas@[k].id, nombre: filas@[k].nombre@, contacto: filas@[k].contacto,
                }),
            decreases filas@.len() - i,
        {
            let f = &filas[i];
            res.push(Proveedor::build(f.id, f.nombre.as_str(), f.contacto));
            i += 1;
        }
        res
    }

    /// The articles a search found: the products, then the articles sold by weight, then
    /// the departments, each with its quantity.
    pub fn val_filtrado(
        prods: Vec<(u8, Producto)>,
        pes: Vec<(u32, crate::valuable::Pesable)>,
        rubs: Vec<(u8, crate::valuable::Rubro)>,
    ) -> (res: Vec<Valuable>)
        ensures
            res@.map_values(|v: Valuable| v@) ==
                prods@.map_values(|a: (u8, Producto)| crate::valuable::ValuableV::Prod(a.0, a.1@))
                + pes@.map_values(|a: (u32, crate::valuable::Pesable)| crate::valuable::ValuableV::Pes(a.0, a.1@))
                + rubs@.map_values(|a: (u8, crate::valuable::Rubro)| crate::valuable::ValuableV::Rub(a.0, a.1@)),
    {
        let mut res: Vec<Valuable> = Vec::new();
        let ghost vp = prods@.map_values(|a: (u8, Producto)| crate::valuable::ValuableV::Prod(a.0, a.1@));
        let ghost vpes = pes@.map_values(|a: (u32, crate::valuable::Pesable)| crate::valuable::ValuableV::Pes(a.0, a.1@));
        let ghost vr = rubs@.map_values(|a: (u8, crate::valuable::Rubro)| crate::valuable::ValuableV::Rub(a.0, a.1@));
        let mut prods = prods;
        let mut pes = pes;
        let mut rubs = rubs;
        let mut i: usize = 0;
        while i < prods.len()
            invariant
                vp == prods@.map_values(|a: (u8, Producto)| crate::valuable::ValuableV::Prod(a.0, a.1@)),
                i <= prods@.len(),
                res@.map_values(|v: Valuable| v@) == vp.take(i as int),
            decreases prods@.len() - i,
        {
            let ghost antes = res@.map_values(|v: Valuable| v@);
            res.push(Valuable::Prod((prods[i].0, prods[i].1.copia())));
            assert(res@.map_values(|v: Valuable| v@) =~= antes.push(vp[i as int]));
            assert(vp.take(i + 1) =~= vp.take(i as int).push(vp[i as int]));
            i += 1;
        }
        assert(vp.take(vp.len() as int) =~= vp);
        let mut j: usize = 0;
        while j < pes.len()
            invariant
                vpes == pes@.map_values(|a: (u32, crate::valuable::Pesable)| crate::valuable::ValuableV::Pes(a.0, a.1@)),
                j <= pes@.len(),
                res@.map_values(|v: Valuable| v@) == vp + vpes.take(j as int),
            decreases pes@.len() - j,
        {
            let ghost antes = res@.map_values(|v: Valuable| v@);
            res.push(Valuable::Pes((pes[j].0, pes[j].1.copia())));
            assert(res@.map_values(|v: Valuable| v@) =~= antes.push(vpes[j as int]));
            assert(vpes.take(j + 1) =~= vpes.take(j as int).push(vpes[j as int]));
            assert(res@.map_values(|v: Valuable| v@) =~= vp + vpes.take(j + 1));
            j += 1;
        }
        assert(vpes.take(vpes.len() as int) =~= vpes);
        let mut k: usize = 0;
        while k < rubs.len()
            invariant
                vr == rubs@.map_values(|a: (u8, crate::valuable::Rubro)| crate::valuable::ValuableV::Rub(a.0, a.1@)),
                k <= rubs@.len(),
                res@.map_values(|v: Valuable| v@) == vp + vpes + vr.take(k as int),
            decreases rubs@.len() - k,
        {
            let ghost antes = res@.map_values(|v: Valuable| v@);
            res.push(Valuable::Rub((rubs[k].0, rubs[k].1.copia())));
            assert(res@.map_values(|v: Valuable| v@) =~= antes.push(vr[k as int]));
            assert(vr.take(k + 1) =~= vr.take(k as int).push(vr[k as int]));
            assert(res@.map_values(|v: Valuable| v@) =~= vp + vpes + vr.take(k + 1));
            k += 1;
        }
        assert(vr.take(vr.len() as int) =~= vr);
        res
    }

    /// The search the text of a filter (after its quantity: see `splitx`) asks for: by code
    /// when it reads as an integer, else by its words. A text that reads as a floating-point
    /// number but not as an integer is a search by words here; the product search of the
    /// program reads such a text as a float code, which the library does not hold.
    pub fn busqueda(texto: &str) -> (res: Busqueda)
        ensures
            res@ == busqueda_de(texto@),
    {
        match parse_entero(texto) {
            Ok(c) => Busqueda::Codigo(c),
            Err(_) => {
                let ps = dividir(texto, ' ');
                assert(textos(ps@) =~= partes(texto@, ' '));
                Busqueda::Palabras(ps)
            },
        }
    }

    /// The products a search shows, from those the store gave back for it (see
    /// `elegidos`, over brand, variety and kind): each with the units of the filter and its
    /// price rounded to the policy.
    pub fn prods_filtrado(&self, cant: u32, busqueda: &Busqueda, encontrados: &Vec<Producto>) -> (res: Vec<(u8, Producto)>)
        ensures
            ({
                let ps = encontrados@.map_values(|p: Producto| p@);
                let idx = elegidos(busqueda@, ps.map_values(|p: ProductoV| campos_producto(p)), self@.configs.cantidad_spec() as nat);
                &&& res@.len() == idx.len()
                &&& busqueda_acotada(busqueda@, ps.map_values(|p: ProductoV| campos_producto(p)), self@.configs.cantidad_spec() as nat, idx)
                &&& forall|i: int| 0 <= i < res@.len() ==> 0 <= idx[i] < ps.len()
                    && (#[trigger] res@[i]).0 == unidades_spec(cant)
                    && res@[i].1@ == redondeado(ps[idx[i]], self@.configs.politica_spec())
            }),
    {
        let ghost ps = encontrados@.map_values(|p: Producto| p@);
        let politica = self.configs.politica();
        let cantidad = self.configs.get_cantidad_productos();
        let unidades = Sistema::unidades(cant);
        let mut filas: Vec<Vec<String>> = Vec::new();
        let mut i: usize = 0;
        while i < encontrados.len()
            invariant
                i <= encontrados@.len(),
                filas@.len() == i,
                forall|k: int| 0 <= k < i ==> textos(#[trigger] filas@[k]@) == campos_producto(encontrados@[k]@),
            decreases encontrados@.len() - i,
        {
            let mut f: Vec<String> = Vec::new();
            f.push(encontrados[i].marca());
            f.push(encontrados[i].variedad());
            f.push(encontrados[i].tipo_producto());
            assert(textos(f@) =~= campos_producto(encontrados@[i as int]@));
            filas.push(f);
            i += 1;
        }
        let ghost fs = ps.map_values(|p: ProductoV| campos_producto(p));
        assert(filas@.map_values(|f: Vec<String>| textos(f@)) =~= fs);
        let idx = indices_elegidos(busqueda, &filas, cantidad as usize);
        let ghost e = elegidos(busqueda@, fs, cantidad as nat);
        proof {
            lema_elegidos(busqueda@, fs, cantidad as nat);
        }
        let mut res: Vec<(u8, Producto)> = Vec::new();
        let mut k: usize = 0;
        while k < idx.len()
            invariant
                ps == encontrados@.map_values(|p: Producto| p@),
                politica == self@.configs.politica_spec(),
                unidades == unidades_spec(cant),
                idx@.map_values(|x: usize| x as int) == e,
                filas@.len() == encontrados@.len(),
                forall|j: int| 0 <= j < idx@.len() ==> #[trigger] idx@[j] < filas@.len(),
                k <= idx@.len(),
                res@.len() == k,
                forall|j: int| 0 <= j < k ==> (#[trigger] res@[j]).0 == unidades
                    && res@[j].1@ == redondeado(ps[e[j]], politica),
            decreases idx@.len() - k,
        {
            let n = idx[k];
            assert(e[k as int] == n as int);
            res.push((unidades, encontrados[n].redondear(&politica)));
            k += 1;
        }
        proof {
            assert forall|i: int| 0 <= i < res@.len() implies 0 <= #[trigger] e[i] < ps.len() by {
                assert(e[i] == idx@[i] as int);
            }
        }
        res
    }

    /// The articles sold by weight a search shows, from those the store gave back for it
    /// (see `elegidos`, over the description): each with the quantity of the filter.
    pub fn pes_filtrado(&self, cant: u32, busqueda: &Busqueda, encontrados: &Vec<crate::valuable::Pesable>) -> (res: Vec<(u32, crate::valuable::Pesable)>)
        ensures
            ({
                let ps = encontrados@.map_values(|p: crate::valuable::Pesable| p@);
                let idx = elegidos(busqueda@, ps.map_values(|p: crate::valuable::PesableV| seq![p.descripcion]), self@.configs.cantidad_spec() as nat);
                &&& res@.len() == idx.len()
                &&& busqueda_acotada(busqueda@, ps.map_values(|p: crate::valuable::PesableV| seq![p.descripcion]), self@.configs.cantidad_spec() as nat, idx)
                &&& forall|i: int| 0 <= i < res@.len() ==> 0 <= idx[i] < ps.len()
                    && (#[trigger] res@[i]).0 == cant
                    && res@[i].1@ == ps[idx[i]]
            }),
    {
        let ghost ps = encontrados@.map_values(|p: crate::valuable::Pesable| p@);
        let cantidad = self.configs.get_cantidad_productos();
        let mut filas: Vec<Vec<String>> = Vec::new();
        let mut i: usize = 0;
        while i < encontrados.len()
            invariant
                i <= encontrados@.len(),
                filas@.len() == i,
                forall|k: int| 0 <= k < i ==> textos(#[trigger] filas@[k]@) == seq![encontrados@[k]@.descripcion],
            decreases encontrados@.len() - i,
        {
            let mut f: Vec<String> = Vec::new();
            f.push(encontrados[i].descripcion());
            assert(textos(f@) =~= seq![encontrados@[i as int]@.descripcion]);
            filas.push(f);
            i += 1;
        }
        let ghost fs = ps.map_values(|p: crate::valuable::PesableV| seq![p.descripcion]);
        assert(filas@.map_values(|f: Vec<String>| textos(f@)) =~= fs);
        let idx = indices_elegidos(busqueda, &filas, cantidad as usize);
        let ghost e = elegidos(busqueda@, fs, cantidad as nat);
        proof {
            lema_elegidos(busqueda@, fs, cantidad as nat);
        }
        let mut res: Vec<(u32, crate::valuable::Pesable)> = Vec::new();
        let mut k: usize = 0;
        while k < idx.len()
            invariant
                ps == encontrados@.map_values(|p: crate::valuable::Pesable| p@),
                idx@.map_values(|x: usize| x as int) == e,
                filas@.len() == encontrados@.len(),
                forall|j: int| 0 <= j < idx@.len() ==> #[trigger] idx@[j] < filas@.len(),
                k <= idx@.len(),
                res@.len() == k,
                forall|j: int| 0 <= j < k ==> (#[trigger] res@[j]).0 == cant && res@[j].1@ == ps[e[j]],
            decreases idx@.len() - k,
        {
            let n = idx[k];
            assert(e[k as int] == n as int);
            res.push((cant, encontrados[n].copia()));
            k += 1;
        }
        proof {
            assert forall|i: int| 0 <= i < res@.len() implies 0 <= #[trigger] e[i] < ps.len() by {
                assert(e[i] == idx@[i] as int);
            }
        }
        res
    }

    /// The departments a search shows, from those the store gave back for it (see
    /// `elegidos`, over the description): each with the units of the filter and an amount
    /// of zero.
    pub fn rub_filtrado(&self, cant: u32, busqueda: &Busqueda, encontrados: &Vec<crate::valuable::Rubro>) -> (res: Vec<(u8, crate::valuable::Rubro)>)
        ensures
            ({
                let rs = encontrados@.map_values(|r: crate::valuable::Rubro| r@);
                let idx = elegidos(busqueda@, rs.map_values(|r: crate::valuable::RubroV| seq![r.descripcion]), self@.configs.cantidad_spec() as nat);
                &&& res@.len() == idx.len()
                &&& busqueda_acotada(busqueda@, rs.map_values(|r: crate::valuable::RubroV| seq![r.descripcion]), self@.configs.cantidad_spec() as nat, idx)
                &&& forall|i: int| 0 <= i < res@.len() ==> 0 <= idx[i] < rs.len()
                    && (#[trigger] res@[i]).0 == unidades_spec(cant)
                    && res@[i].1@ == (crate::valuable::RubroV { monto: Some(0u64), ..rs[idx[i]] })
            }),
    {
        let ghost rs = encontrados@.map_values(|r: crate::valuable::Rubro| r@);
        let cantidad = self.configs.get_cantidad_productos();
        let unidades = Sistema::unidades(cant);
        let mut filas: Vec<Vec<String>> = Vec::new();
        let mut i: usize = 0;
        while i < encontrados.len()
            invariant
                i <= encontrados@.len(),
                filas@.len() == i,
                forall|k: int| 0 <= k < i ==> textos(#[trigger] filas@[k]@) == seq![encontrados@[k]@.descripcion],
            decreases encontrados@.len() - i,
        {
            let mut f: Vec<String> = Vec::new();
            f.push(encontrados[i].descripcion());
            assert(textos(f@) =~= seq![encontrados@[i as int]@.descripcion]);
            filas.push(f);
            i += 1;
        }
        let ghost fs = rs.map_values(|r: crate::valuable::RubroV| seq![r.descripcion]);
        assert(filas@.map_values(|f: Vec<String>| textos(f@)) =~= fs);
        let idx = indices_elegidos(busqueda, &filas, cantidad as usize);
        let ghost e = elegidos(busqueda@, fs, cantidad as nat);
        proof {
            lema_elegidos(busqueda@, fs, cantidad as nat);
        }
        let mut res: Vec<(u8, crate::valuable::Rubro)> = Vec::new();
        let mut k: usize = 0;
        while k < idx.len()
            invariant
                rs == encontrados@.map_values(|r: crate::valuable::Rubro| r@),
                unidades == unidades_spec(cant),
                idx@.map_values(|x: usize| x as int) == e,
                filas@.len() == encontrados@.len(),
                forall|j: int| 0 <= j < idx@.len() ==> #[trigger] idx@[j] < filas@.len(),
                k <= idx@.len(),
                res@.len() == k,
                forall|j: int| 0 <= j < k ==> (#[trigger] res@[j]).0 == unidades
                    && res@[j].1@ == (crate::valuable::RubroV { monto: Some(0u64), ..rs[e[j]] }),
            decreases idx@.len() - k,
        {
            let n = idx[k];
            assert(e[k as int] == n as int);
            let r = &encontrados[n];
            let d = r.descripcion();
            res.push((unidades, crate::valuable::Rubro::new(*r.id(), *r.codigo(), Some(0), d.as_str())));
            k += 1;
        }
        proof {
            assert forall|i: int| 0 <= i < res@.len() implies 0 <= #[trigger] e[i] < rs.len() by {
                assert(e[i] == idx@[i] as int);
            }
        }
        res
    }

    /// The row an income of cash is stored in for the open register session.
    pub fn hacer_ingreso(&self, monto: u64, descripcion: Option<String>) -> (res: crate::caja::FilaMovimiento)
        ensures
            res.caja == self@.caja.id,
            res.tipo,
            res.monto == monto,
            crate::caja::vista_cajero(res.descripcion) == crate::caja::vista_cajero(descripcion),
    {
        self.caja.hacer_movimiento(&crate::caja::Movimiento::Ingreso { descripcion, monto })
    }

    /// The row an expense of cash is stored in for the open register session.
    pub fn hacer_egreso(&self, monto: u64, descripcion: Option<String>) -> (res: crate::caja::FilaMovimiento)
        ensures
            res.caja == self@.caja.id,
            !res.tipo,
            res.monto == monto,
            crate::caja::vista_cajero(res.descripcion) == crate::caja::vista_cajero(descripcion),
    {
        self.caja.hacer_movimiento(&crate::caja::Movimiento::Egreso { descripcion, monto })
    }

    /// How many rows a search by words asks the store for: twice the products a search
    /// shows.
    pub fn limite_busqueda(&self) -> (res: u16)
        ensures
            res == 2 * self@.configs.cantidad_spec(),
    {
        2 * (self.configs.get_cantidad_productos() as u16)
    }

    /// Whole units of a quantity in thousandths, as a search counts products and
    /// departments: the integer part, held at 255.
    pub fn unidades(milesimas: u32) -> (res: u8)
        ensures
            res == (if milesimas / 1000 > 255 { 255 } else { milesimas / 1000 }),
    {
        if milesimas / 1000 > 255 { 255 } else { (milesimas / 1000) as u8 }
    }
}

} // verus!
