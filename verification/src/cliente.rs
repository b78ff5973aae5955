use vstd::prelude::*;
use crate::calculo::saturar;

verus! {

/// The credit a client may run: an authorised limit in cents, or none.
#[derive(Debug, Clone, Copy, PartialEq, Eq, Structural)]
pub enum Cuenta {
    Auth(u64),
    Unauth,
}

/// The abstract value of a registered client.
pub struct CliV {
    pub id: i64,
    pub nombre: Seq<char>,
    pub dni: i64,
    pub credito: bool,
    pub activo: bool,
    pub created: i64,
    pub limite: Cuenta,
}

/// A registered client; `created` is the time of registration in seconds.
#[derive(Debug, Clone)]
pub struct Cli {
    id: i64,
    nombre: String,
    dni: i64,
    credito: bool,
    activo: bool,
    created: i64,
    limite: Cuenta,
}

impl View for Cli {
    type V = CliV;

    closed spec fn view(&self) -> CliV {
        CliV {
            id: self.id,
            nombre: self.nombre@,
            dni: self.dni,
            credito: self.credito,
            activo: self.activo,
            created: self.created,
            limite: self.limite,
        }
    }
}

/// The sum of amounts.
pub open spec fn suma(xs: Seq<u64>) -> int
    decreases xs.len(),
{
    if xs.len() == 0 { 0 } else { suma(xs.drop_last()) + xs.last() }
}

pub open spec fn cuenta_de(limite: Option<u64>) -> Cuenta {
    match limite {
        Some(l) => Cuenta::Auth(l),
        None => Cuenta::Unauth,
    }
}

impl Cli {
    /// A client; a limit, when given, authorises that much credit.
    pub fn build(
        id: i64,
        nombre: &str,
        dni: i64,
        credito: bool,
        activo: bool,
        created: i64,
        limite: Option<u64>,
    ) -> (res: Cli)
        ensures
            res@ == (CliV { id, nombre: nombre@, dni, credito, activo, created, limite: cuenta_de(limite) }),
    {
        Cli {
            id,
            nombre: nombre.to_string(),
            dni,
            credito,
            activo,
            created,
            limite: match limite {
                Some(limit) => Cuenta::Auth(limit),
                None => Cuenta::Unauth,
            },
        }
    }

    /// A client, as `build` gives it.
    pub fn new(
        id: i64,
        nombre: &str,
        dni: i64,
        credito: bool,
        activo: bool,
        created: i64,
        limite: Option<u64>,
    ) -> (res: Cli)
        ensures
            res@ == (CliV { id, nombre: nombre@, dni, credito, activo, created, limite: cuenta_de(limite) }),
    {
        Cli::build(id, nombre, dni, credito, activo, created, limite)
    }

    /// Registers a client under `id`; a client already stored with the same national id
    /// (`existente`) is an error.
    pub fn new_to_db(
        nombre: &str,
        dni: i64,
        credito: bool,
        activo: bool,
        created: i64,
        limite: Option<u64>,
        existente: bool,
        id: i64,
    ) -> (res: Result<Cli, crate::error::AppError>)
        ensures
            if existente {
                res matches Err(crate::error::AppError::ExistingError { objeto, instancia })
                    && objeto@ == "Cliente"@ && instancia@ == crate::texto::decimal_con_signo(dni as int)
            } else {
                res matches Ok(c) && c@ == (CliV { id, nombre: nombre@, dni, credito, activo, created, limite: cuenta_de(limite) })
            },
    {
        if existente {
            Err(crate::error::AppError::ExistingError {
                objeto: "Cliente".to_string(),
                instancia: crate::texto::entero_a_texto(dni),
            })
        } else {
            Ok(Cli::build(id, nombre, dni, credito, activo, created, limite))
        }
    }

    /// Marks a sale of a client as paid: `encontrada` is the unpaid sale stored under the
    /// id asked for, with its client. None found, or one of another client, is an error.
    pub fn pagar_deuda_especifica(id_cliente: i64, encontrada: Option<(crate::venta::Venta, Option<i64>)>) -> (res: Result<crate::venta::Venta, crate::error::AppError>)
        requires
            encontrada matches Some((_, c)) ==> c is Some,
        ensures
            match encontrada {
                None => res matches Err(crate::error::AppError::IncorrectError(m)) && m@ == "Id inexistente"@,
                Some((v, c)) => if c == Some(id_cliente) {
                    res matches Ok(r) && r@ == v@
                } else {
                    res matches Err(crate::error::AppError::IncorrectError(m)) && m@ == "Cliente Incorrecto"@
                },
            },
    {
        match encontrada {
            None => Err(crate::error::AppError::IncorrectError("Id inexistente".to_string())),
            Some((v, c)) => {
                let cli_id = c.unwrap();
                if cli_id == id_cliente {
                    Ok(v)
                } else {
                    Err(crate::error::AppError::IncorrectError("Cliente Incorrecto".to_string()))
                }
            },
        }
    }

    /// What the client owes: the sum of the debts given, held to the range of `u64`.
    pub fn get_deuda(&self, deudas: &Vec<u64>) -> (res: u64)
        ensures
            res == saturar(suma(deudas@)),
    {
        let mut acc: u64 = 0;
        let mut i: usize = 0;
        while i < deudas.len()
            invariant
                i <= deudas@.len(),
                acc == saturar(suma(deudas@.take(i as int))),
                suma(deudas@.take(i as int)) >= 0,
            decreases deudas@.len() - i,
        {
            assert(deudas@.take(i + 1).drop_last() == deudas@.take(i as int));
            let s: u128 = acc as u128 + deudas[i] as u128;
            acc = if s > u64::MAX as u128 { u64::MAX } else { s as u64 };
            i += 1;
        }
        assert(deudas@.take(deudas@.len() as int) == deudas@);
        acc
    }

    pub fn copia(&self) -> (res: Cli)
        ensures
            res@ == self@,
    {
        Cli {
            id: self.id,
            nombre: self.nombre.clone(),
            dni: self.dni,
            credito: self.credito,
            activo: self.activo,
            created: self.created,
            limite: self.limite,
        }
    }

    pub fn id(&self) -> (res: &i64)
        ensures
            *res == self@.id,
    {
        &self.id
    }

    pub fn dni(&self) -> (res: &i64)
        ensures
            *res == self@.dni,
    {
        &self.dni
    }

    pub fn limite(&self) -> (res: &Cuenta)
        ensures
            *res == self@.limite,
    {
        &self.limite
    }

    pub fn nombre(&self) -> (res: &str)
        ensures
            res@ == self@.nombre,
    {
        self.nombre.as_str()
    }

    /// Whether the client may pay on a current account.
    pub fn credito(&self) -> (res: bool)
        ensures
            res == self@.credito,
    {
        self.credito
    }

    pub fn activo(&self) -> (res: bool)
        ensures
            res == self@.activo,
    {
        self.activo
    }

    pub fn created(&self) -> (res: i64)
        ensures
            res == self@.created,
    {
        self.created
    }
}

/// The abstract value of the client of a sale.
pub enum ClienteV {
    Final,
    Regular(CliV),
}

/// The client of a sale: an anonymous final consumer or a registered client.
#[derive(Debug, Clone)]
pub enum Cliente {
    Final,
    Regular(Cli),
}

impl View for Cliente {
    type V = ClienteV;

    open spec fn view(&self) -> ClienteV {
        match self {
            Cliente::Final => ClienteV::Final,
            Cliente::Regular(c) => ClienteV::Regular(c@),
        }
    }
}

impl Cliente {
    pub fn new(cli: Option<Cli>) -> (res: Cliente)
        ensures
            res@ == match cli {
                Some(c) => ClienteV::Regular(c@),
                None => ClienteV::Final,
            },
    {
        match cli {
            Some(a) => Cliente::Regular(a),
            None => Cliente::Final,
        }
    }

    pub fn copia(&self) -> (res: Cliente)
        ensures
            res@ == self@,
    {
        match self {
            Cliente::Final => Cliente::Final,
            Cliente::Regular(c) => Cliente::Regular(c.copia()),
        }
    }
}

impl Default for Cliente {
    fn default() -> (res: Cliente)
        ensures
            res@ == ClienteV::Final,
    {
        Cliente::Final
    }
}

/// A payment on a current account: its id, the amount owed and the part paid so far.
#[derive(Debug, Clone, Copy, PartialEq, Eq, Structural)]
pub struct PagoCuenta {
    pub id: i64,
    pub monto: u64,
    pub pagado: u64,
}

/// The abstract value of an unpaid sale of a client.
pub struct DeudaVentaV {
    pub id: i64,
    pub monto_total: u64,
    pub monto_pagado: u64,
    pub pagos: Seq<PagoCuenta>,
}

/// An unpaid sale of a client with its current-account payments, oldest first.
#[derive(Debug, Clone)]
pub struct DeudaVenta {
    pub id: i64,
    pub monto_total: u64,
    pub monto_pagado: u64,
    pub pagos: Vec<PagoCuenta>,
}

impl View for DeudaVenta {
    type V = DeudaVentaV;

    open spec fn view(&self) -> DeudaVentaV {
        DeudaVentaV { id: self.id, monto_total: self.monto_total, monto_pagado: self.monto_pagado, pagos: self.pagos@ }
    }
}

/// What paying a sum towards a client's debt does: the money left over once every unpaid
/// sale is counted (negative while debt remains), the sales with their payments brought up
/// to date, and the ids of the sales that became paid.
#[derive(Debug, Clone)]
pub struct ReparticionDeuda {
    pub resto: i128,
    pub deudas: Vec<DeudaVenta>,
    pub pagas: Vec<i64>,
}

/// One payment receives what it can of the money `m`: it is completed when the money covers
/// what it lacks, and partly paid otherwise. Paid payments, and no money, change nothing.
pub open spec fn paso_pago(p: PagoCuenta, m: int) -> (PagoCuenta, int, bool) {
    if m <= 0 || p.pagado >= p.monto {
        (p, m, false)
    } else if m >= p.monto - p.pagado {
        (PagoCuenta { pagado: p.monto, ..p }, m - (p.monto - p.pagado), true)
    } else {
        (PagoCuenta { pagado: (p.pagado + m) as u64, ..p }, 0, false)
    }
}

/// The payments of one sale after receiving the money `m` in order, the money left and the
/// number of payments completed.
pub open spec fn repartir_pagos(ps: Seq<PagoCuenta>, m: int) -> (Seq<PagoCuenta>, int, nat)
    decreases ps.len(),
{
    if ps.len() == 0 {
        (ps, m, 0)
    } else {
        let (q, m1, c1) = repartir_pagos(ps.drop_last(), m);
        let (p, m2, hecho) = paso_pago(ps.last(), m1);
        (q.push(p), m2, if hecho { c1 + 1 } else { c1 })
    }
}

/// One sale receives the money `m`: its payments in order, and it becomes paid when every
/// one of its payments was completed now. No money left changes nothing.
pub open spec fn paso_venta(d: DeudaVentaV, m: int) -> (DeudaVentaV, int, bool) {
    if m <= 0 {
        (d, m, false)
    } else {
        let (ps, m1, c) = repartir_pagos(d.pagos, m);
        (DeudaVentaV { pagos: ps, ..d }, m1, c == d.pagos.len())
    }
}

/// The sales after receiving the money `m` in order, the money left, and the ids of the
/// sales that became paid.
pub open spec fn repartir_ventas(ds: Seq<DeudaVentaV>, m: int) -> (Seq<DeudaVentaV>, int, Seq<i64>)
    decreases ds.len(),
{
    if ds.len() == 0 {
        (ds, m, Seq::empty())
    } else {
        let (q, m1, pagas) = repartir_ventas(ds.drop_last(), m);
        let (d, m2, paga) = paso_venta(ds.last(), m1);
        (q.push(d), m2, if paga { pagas.push(d.id) } else { pagas })
    }
}

/// What the unpaid sales still owe.
pub open spec fn deuda_total(ds: Seq<DeudaVentaV>) -> int
    decreases ds.len(),
{
    if ds.len() == 0 {
        0
    } else {
        deuda_total(ds.drop_last()) + (ds.last().monto_total - ds.last().monto_pagado)
    }
}

/// What the payments received, in all.
pub open spec fn suma_pagado(ps: Seq<PagoCuenta>) -> int
    decreases ps.len(),
{
    if ps.len() == 0 { 0 } else { suma_pagado(ps.drop_last()) + ps.last().pagado }
}

pub open spec fn suma_pagado_ventas(ds: Seq<DeudaVentaV>) -> int
    decreases ds.len(),
{
    if ds.len() == 0 { 0 } else { suma_pagado_ventas(ds.drop_last()) + suma_pagado(ds.last().pagos) }
}

pub open spec fn pocos_pagos(ds: Seq<DeudaVentaV>) -> bool {
    forall|i: int| 0 <= i < ds.len() ==> #[trigger] ds[i].pagos.len() < 256
}

/// Shares out the money `m` over the payments of one sale.
fn repartir_pagos_exec(pagos: &Vec<PagoCuenta>, m: u64) -> (res: (Vec<PagoCuenta>, u64, usize))
    ensures
        res.0@ == repartir_pagos(pagos@, m as int).0,
        res.1 as int == repartir_pagos(pagos@, m as int).1,
        res.2 as nat == repartir_pagos(pagos@, m as int).2,
{
    let mut nuevos: Vec<PagoCuenta> = Vec::new();
    let mut resto = m;
    let mut completados: usize = 0;
    let mut i: usize = 0;
    while i < pagos.len()
        invariant
            i <= pagos@.len(),
            nuevos@ == repartir_pagos(pagos@.take(i as int), m as int).0,
            resto as int == repartir_pagos(pagos@.take(i as int), m as int).1,
            completados as nat == repartir_pagos(pagos@.take(i as int), m as int).2,
            completados <= i,
        decreases pagos@.len() - i,
    {
        proof {
            assert(pagos@.take(i + 1).drop_last() == pagos@.take(i as int));
        }
        let p = pagos[i];
        if resto > 0 && p.pagado < p.monto {
            let falta = p.monto - p.pagado;
            if resto >= falta {
                resto = resto - falta;
                nuevos.push(PagoCuenta { pagado: p.monto, ..p });
                completados = completados + 1;
            } else {
                nuevos.push(PagoCuenta { pagado: p.pagado + resto, ..p });
                resto = 0;
            }
        } else {
            nuevos.push(p);
        }
        i += 1;
    }
    assert(pagos@.take(pagos@.len() as int) == pagos@);
    (nuevos, resto, completados)
}

proof fn lema_repartir_pagos_resto(ps: Seq<PagoCuenta>, m: int)
    requires
        m >= 0,
    ensures
        0 <= repartir_pagos(ps, m).1 <= m,
        repartir_pagos(ps, m).0.len() == ps.len(),
        repartir_pagos(ps, m).2 <= ps.len(),
    decreases ps.len(),
{
    if ps.len() > 0 {
        lema_repartir_pagos_resto(ps.drop_last(), m);
    }
}

/// A payment is fully paid.
pub open spec fn saldado(p: PagoCuenta) -> bool {
    p.pagado >= p.monto
}

/// Sharing money over the payments of a sale keeps it: what the payments received plus the
/// money left is what they had plus the money given. When money is left, every payment is
/// fully paid.
pub proof fn lema_reparto_de_pagos(ps: Seq<PagoCuenta>, m: int)
    requires
        m >= 0,
    ensures
        suma_pagado(repartir_pagos(ps, m).0) + repartir_pagos(ps, m).1 == suma_pagado(ps) + m,
        repartir_pagos(ps, m).1 > 0 ==> forall|j: int| 0 <= j < ps.len() ==> #[trigger] saldado(repartir_pagos(ps, m).0[j]),
    decreases ps.len(),
{
    lema_repartir_pagos_resto(ps, m);
    if ps.len() > 0 {
        lema_reparto_de_pagos(ps.drop_last(), m);
        lema_repartir_pagos_resto(ps.drop_last(), m);
        let (q, m1, c1) = repartir_pagos(ps.drop_last(), m);
        let (p, m2, hecho) = paso_pago(ps.last(), m1);
        assert(repartir_pagos(ps, m).0 == q.push(p));
        assert(q.push(p).drop_last() == q);
        if m2 > 0 {
            assert forall|j: int| 0 <= j < ps.len() implies #[trigger] saldado(repartir_pagos(ps, m).0[j]) by {
                if j < ps.len() - 1 {
                    assert(q.push(p)[j] == q[j]);
                }
            }
        }
    }
}

/// Paying towards a client's debt keeps the money: what the payments of the unpaid sales
/// received plus the money left is what they had plus the sum paid. When money is left,
/// every payment of every sale is fully paid.
pub proof fn lema_reparto_de_deuda(ds: Seq<DeudaVentaV>, m: int)
    requires
        m >= 0,
    ensures
        suma_pagado_ventas(repartir_ventas(ds, m).0) + repartir_ventas(ds, m).1 == suma_pagado_ventas(ds) + m,
        0 <= repartir_ventas(ds, m).1 <= m,
        repartir_ventas(ds, m).0.len() == ds.len(),
        repartir_ventas(ds, m).1 > 0 ==> forall|i: int, j: int| 0 <= i < ds.len() && 0 <= j < ds[i].pagos.len()
            ==> #[trigger] saldado(repartir_ventas(ds, m).0[i].pagos[j]),
    decreases ds.len(),
{
    if ds.len() > 0 {
        lema_reparto_de_deuda(ds.drop_last(), m);
        let (q, m1, pagas) = repartir_ventas(ds.drop_last(), m);
        let (d, m2, paga) = paso_venta(ds.last(), m1);
        if m1 > 0 {
            lema_reparto_de_pagos(ds.last().pagos, m1);
            lema_repartir_pagos_resto(ds.last().pagos, m1);
        }
        assert(repartir_ventas(ds, m).0 == q.push(d));
        assert(q.push(d).drop_last() == q);
        if m2 > 0 {
            assert forall|i: int, j: int| 0 <= i < ds.len() && 0 <= j < ds[i].pagos.len()
                implies #[trigger] saldado(repartir_ventas(ds, m).0[i].pagos[j]) by {
                if i < ds.len() - 1 {
                    assert(q.push(d)[i] == q[i]);
                    assert(ds.drop_last()[i] == ds[i]);
                } else {
                    assert(ds[i] == ds.last());
                }
            }
        }
    }
}

/// When every payment of a sale was completed by the money, each is fully paid, and the
/// payments keep their number and ids.
proof fn lema_pagos_completados(ps: Seq<PagoCuenta>, m: int)
    ensures
        repartir_pagos(ps, m).0.len() == ps.len(),
        repartir_pagos(ps, m).2 <= ps.len(),
        forall|j: int| 0 <= j < ps.len() ==> (#[trigger] repartir_pagos(ps, m).0[j]).id == ps[j].id,
        repartir_pagos(ps, m).2 == ps.len() ==> forall|j: int| 0 <= j < ps.len() ==> #[trigger] saldado(repartir_pagos(ps, m).0[j]),
    decreases ps.len(),
{
    if ps.len() > 0 {
        lema_pagos_completados(ps.drop_last(), m);
        let (q, m1, c1) = repartir_pagos(ps.drop_last(), m);
        let (p, m2, hecho) = paso_pago(ps.last(), m1);
        assert(repartir_pagos(ps, m).0 == q.push(p));
        assert forall|j: int| 0 <= j < ps.len() implies (#[trigger] repartir_pagos(ps, m).0[j]).id == ps[j].id by {
            if j < ps.len() - 1 {
                assert(q.push(p)[j] == q[j]);
                assert(ps.drop_last()[j] == ps[j]);
            }
        }
        if repartir_pagos(ps, m).2 == ps.len() {
            assert(hecho);
            assert forall|j: int| 0 <= j < ps.len() implies #[trigger] saldado(repartir_pagos(ps, m).0[j]) by {
                if j < ps.len() - 1 {
                    assert(q.push(p)[j] == q[j]);
                }
            }
        }
    }
}

/// Every payment received its whole amount.
pub open spec fn pagos_saldados(ps: Seq<PagoCuenta>) -> bool {
    forall|j: int| 0 <= j < ps.len() ==> #[trigger] saldado(ps[j])
}

/// One of the sales has the id and all its payments fully paid.
pub open spec fn venta_saldada(ds: Seq<DeudaVentaV>, id: i64) -> bool {
    exists|i: int| 0 <= i < ds.len() && #[trigger] ds[i].id == id && pagos_saldados(ds[i].pagos)
}

/// A sale is reported paid only when, after the sharing, every one of its current-account
/// payments is fully paid: each id reported is that of a sale whose payments all received
/// their whole amount. The sales keep their places and ids.
pub proof fn lema_ventas_pagas(ds: Seq<DeudaVentaV>, m: int)
    ensures
        repartir_ventas(ds, m).0.len() == ds.len(),
        forall|i: int| 0 <= i < ds.len() ==> (#[trigger] repartir_ventas(ds, m).0[i]).id == ds[i].id,
        forall|k: int| 0 <= k < repartir_ventas(ds, m).2.len()
            ==> venta_saldada(repartir_ventas(ds, m).0, #[trigger] repartir_ventas(ds, m).2[k]),
    decreases ds.len(),
{
    if ds.len() > 0 {
        lema_ventas_pagas(ds.drop_last(), m);
        let (q, m1, pagas) = repartir_ventas(ds.drop_last(), m);
        let (d, m2, paga) = paso_venta(ds.last(), m1);
        let r = repartir_ventas(ds, m);
        assert(r.0 == q.push(d));
        if m1 > 0 {
            lema_pagos_completados(ds.last().pagos, m1);
        }
        assert forall|i: int| 0 <= i < ds.len() implies (#[trigger] r.0[i]).id == ds[i].id by {
            if i < ds.len() - 1 {
                assert(r.0[i] == q[i]);
                assert(ds.drop_last()[i] == ds[i]);
            }
        }
        assert forall|k: int| 0 <= k < r.2.len() implies venta_saldada(r.0, #[trigger] r.2[k]) by {
            if k < pagas.len() {
                assert(r.2[k] == pagas[k]);
                assert(venta_saldada(q, pagas[k]));
                let i = choose|i: int| 0 <= i < q.len() && #[trigger] q[i].id == pagas[k] && pagos_saldados(q[i].pagos);
                assert(r.0[i] == q[i]);
            } else {
                let i = ds.len() - 1;
                assert(paga && r.2[k] == d.id);
                assert(r.0[i] == d);
                assert(pagos_saldados(d.pagos));
            }
        }
    }
}

proof fn lema_deuda_total_acotada(ds: Seq<DeudaVentaV>)
    ensures
        -(u64::MAX as int) * ds.len() <= deuda_total(ds) <= (u64::MAX as int) * ds.len(),
    decreases ds.len(),
{
    if ds.len() > 0 {
        lema_deuda_total_acotada(ds.drop_last());
        assert((u64::MAX as int) * ds.len() == (u64::MAX as int) * (ds.len() - 1) + u64::MAX) by (nonlinear_arith);
    }
}

impl Cli {
    /// Pays the sum `monto` towards the debt of a client. The money goes over the unpaid
    /// sales in order, and within each sale over its current-account payments in order,
    /// completing each payment while it can and paying the last one in part. A sale whose
    /// payments were all completed by this money becomes paid. The result also tells what
    /// is left of the money once all the debt is counted. Each payment is told apart by its
    /// own id, so the rows updated are the payments themselves (an update keyed by the
    /// client's id would touch unrelated payments).
    pub fn pagar_deuda_general(deudas: Vec<DeudaVenta>, monto: u64) -> (res: ReparticionDeuda)
        requires
            pocos_pagos(deudas@.map_values(|d: DeudaVenta| d@)),
            deudas@.len() <= u32::MAX,
        ensures
            res.resto == monto - deuda_total(deudas@.map_values(|d: DeudaVenta| d@)),
            res.deudas@.map_values(|d: DeudaVenta| d@)
                == repartir_ventas(deudas@.map_values(|d: DeudaVenta| d@), monto as int).0,
            res.pagas@ == repartir_ventas(deudas@.map_values(|d: DeudaVenta| d@), monto as int).2,
            forall|k: int| 0 <= k < res.pagas@.len()
                ==> venta_saldada(res.deudas@.map_values(|d: DeudaVenta| d@), #[trigger] res.pagas@[k]),
    {
        proof {
            lema_ventas_pagas(deudas@.map_values(|d: DeudaVenta| d@), monto as int);
        }
        let ghost ds = deudas@.map_values(|d: DeudaVenta| d@);
        let mut deuda: i128 = 0;
        let mut k: usize = 0;
        while k < deudas.len()
            invariant
                ds == deudas@.map_values(|d: DeudaVenta| d@),
                k <= deudas@.len(),
                deudas@.len() <= u32::MAX,
                deuda as int == deuda_total(ds.take(k as int)),
            decreases deudas@.len() - k,
        {
            proof {
                assert(ds.take(k + 1).drop_last() == ds.take(k as int));
                lema_deuda_total_acotada(ds.take(k as int));
                assert((u64::MAX as int) * k <= (u64::MAX as int) * (u32::MAX as int)) by (nonlinear_arith)
                    requires k <= u32::MAX;
            }
            deuda = deuda + (deudas[k].monto_total as i128 - deudas[k].monto_pagado as i128);
            k += 1;
        }
        assert(ds.take(deudas@.len() as int) == ds);
        proof {
            lema_deuda_total_acotada(ds);
            assert((u64::MAX as int) * ds.len() <= (u64::MAX as int) * (u32::MAX as int)) by (nonlinear_arith)
                requires ds.len() <= u32::MAX;
        }
        let resto_final: i128 = monto as i128 - deuda;

        let mut nuevas: Vec<DeudaVenta> = Vec::new();
        let mut pagas: Vec<i64> = Vec::new();
        let mut m = monto;
        let mut i: usize = 0;
        while i < deudas.len()
            invariant
                ds == deudas@.map_values(|d: DeudaVenta| d@),
                pocos_pagos(ds),
                i <= deudas@.len(),
                nuevas@.map_values(|d: DeudaVenta| d@) == repartir_ventas(ds.take(i as int), monto as int).0,
                m as int == repartir_ventas(ds.take(i as int), monto as int).1,
                pagas@ == repartir_ventas(ds.take(i as int), monto as int).2,
            decreases deudas@.len() - i,
        {
            proof {
                assert(ds.take(i + 1).drop_last() == ds.take(i as int));
                assert(ds[i as int] == deudas@[i as int]@);
            }
            let d = &deudas[i];
            if m > 0 {
                let (ps, m1, c) = repartir_pagos_exec(&d.pagos, m);
                proof {
                    lema_repartir_pagos_resto(d.pagos@, m as int);
                    assert(ds[i as int].pagos.len() < 256);
                }
                let paga = c == d.pagos.len();
                let nueva = DeudaVenta { id: d.id, monto_total: d.monto_total, monto_pagado: d.monto_pagado, pagos: ps };
                if paga {
                    pagas.push(d.id);
                }
                nuevas.push(nueva);
                m = m1;
            } else {
                let pagos = d.pagos.clone();
                assert(pagos@ =~= d.pagos@);
                nuevas.push(DeudaVenta { id: d.id, monto_total: d.monto_total, monto_pagado: d.monto_pagado, pagos });
            }
            proof {
                assert(nuevas@.map_values(|d: DeudaVenta| d@) =~= repartir_ventas(ds.take(i + 1), monto as int).0);
            }
            i += 1;
        }
        assert(ds.take(deudas@.len() as int) == ds);
        ReparticionDeuda { resto: resto_final, deudas: nuevas, pagas }
    }
}

} // verus!
