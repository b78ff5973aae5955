use vstd::prelude::*;
use crate::calculo::saturar;
use crate::config::Config;
use crate::error::AppError;
use crate::pago::{Pago, PagoV};
use crate::texto::iguales;

verus! {

/// The abstract value of a cash register session.
pub struct CajaV {
    pub id: i64,
    pub inicio: i64,
    pub cierre: Option<i64>,
    pub ventas_totales: u64,
    pub monto_inicio: u64,
    pub monto_cierre: Option<u64>,
    pub cajero: Option<Seq<char>>,
    pub totales: Seq<(Seq<char>, u64)>,
}

/// A cash register session: when it opened and closed (in seconds), the sales it took,
/// the cash it opened and closed with, who closed it, and what each means of payment took.
/// Amounts are in cents.
#[derive(Debug, Clone)]
pub struct Caja {
    id: i64,
    inicio: i64,
    cierre: Option<i64>,
    ventas_totales: u64,
    monto_inicio: u64,
    monto_cierre: Option<u64>,
    cajero: Option<String>,
    totales: Vec<(String, u64)>,
}

/// A movement of cash into or out of the register.
#[derive(Debug, Clone)]
pub enum Movimiento {
    Ingreso { descripcion: Option<String>, monto: u64 },
    Egreso { descripcion: Option<String>, monto: u64 },
}

/// A movement of cash to be stored: the session, whether it is an income, the amount in
/// cents and its description.
#[derive(Debug, Clone)]
pub struct FilaMovimiento {
    pub caja: i64,
    pub tipo: bool,
    pub monto: u64,
    pub descripcion: Option<String>,
}

pub open spec fn vista_totales(t: Seq<(String, u64)>) -> Seq<(Seq<char>, u64)> {
    t.map_values(|e: (String, u64)| (e.0@, e.1))
}

pub open spec fn vista_cajero(c: Option<String>) -> Option<Seq<char>> {
    match c {
        Some(s) => Some(s@),
        None => None,
    }
}

impl View for Caja {
    type V = CajaV;

    closed spec fn view(&self) -> CajaV {
        CajaV {
            id: self.id,
            inicio: self.inicio,
            cierre: self.cierre,
            ventas_totales: self.ventas_totales,
            monto_inicio: self.monto_inicio,
            monto_cierre: self.monto_cierre,
            cajero: vista_cajero(self.cajero),
            totales: vista_totales(self.totales@),
        }
    }
}

/// The position of the first total kept for a means of payment, if any.
pub open spec fn posicion(t: Seq<(Seq<char>, u64)>, medio: Seq<char>) -> Option<int>
    decreases t.len(),
{
    if t.len() == 0 {
        None
    } else if t[0].0 == medio {
        Some(0)
    } else {
        match posicion(t.drop_first(), medio) {
            Some(i) => Some(i + 1),
            None => None,
        }
    }
}

/// The totals after a payment adds its amount to the total of its means of payment.
pub open spec fn sumar_pago(t: Seq<(Seq<char>, u64)>, medio: Seq<char>, monto: u64) -> Seq<(Seq<char>, u64)> {
    match posicion(t, medio) {
        Some(i) => t.update(i, (medio, saturar(t[i].1 + monto) as u64)),
        None => t,
    }
}

/// The totals after the payments add their amounts, in order.
pub open spec fn sumar_pagos(t: Seq<(Seq<char>, u64)>, pagos: Seq<PagoV>) -> Seq<(Seq<char>, u64)>
    decreases pagos.len(),
{
    if pagos.len() == 0 {
        t
    } else {
        sumar_pago(sumar_pagos(t, pagos.drop_last()), pagos.last().medio_pago.medio, pagos.last().monto)
    }
}

/// Every payment is under a means of payment that has a total.
pub open spec fn medios_conocidos(t: Seq<(Seq<char>, u64)>, pagos: Seq<PagoV>) -> bool {
    forall|i: int| 0 <= i < pagos.len() ==> (#[trigger] posicion(t, pagos[i].medio_pago.medio)) is Some
}

proof fn lema_posicion(t: Seq<(Seq<char>, u64)>, medio: Seq<char>)
    ensures
        match posicion(t, medio) {
            Some(i) => 0 <= i < t.len() && t[i].0 == medio && forall|j: int| 0 <= j < i ==> t[j].0 != medio,
            None => forall|j: int| 0 <= j < t.len() ==> t[j].0 != medio,
        },
    decreases t.len(),
{
    if t.len() > 0 {
        lema_posicion(t.drop_first(), medio);
        if t[0].0 != medio {
            match posicion(t.drop_first(), medio) {
                Some(i) => {
                    assert forall|j: int| 0 <= j < i + 1 implies t[j].0 != medio by {
                        if j > 0 {
                            assert(t[j] == t.drop_first()[j - 1]);
                        }
                    }
                },
                None => {
                    assert forall|j: int| 0 <= j < t.len() implies t[j].0 != medio by {
                        if j > 0 {
                            assert(t[j] == t.drop_first()[j - 1]);
                        }
                    }
                },
            }
        }
    }
}

/// Keys are kept when a payment is added, so means of payment stay known.
proof fn lema_claves_iguales(t: Seq<(Seq<char>, u64)>, u: Seq<(Seq<char>, u64)>, medio: Seq<char>)
    requires
        t.len() == u.len(),
        forall|j: int| 0 <= j < t.len() ==> #[trigger] t[j].0 == u[j].0,
    ensures
        posicion(t, medio) == posicion(u, medio),
    decreases t.len(),
{
    if t.len() > 0 {
        assert forall|j: int| 0 <= j < t.drop_first().len() implies #[trigger] t.drop_first()[j].0 == u.drop_first()[j].0 by {
            assert(t.drop_first()[j] == t[j + 1]);
            assert(u.drop_first()[j] == u[j + 1]);
        }
        lema_claves_iguales(t.drop_first(), u.drop_first(), medio);
    }
}

/// What the register took by all means of payment.
pub open spec fn suma_totales(t: Seq<(Seq<char>, u64)>) -> int
    decreases t.len(),
{
    if t.len() == 0 { 0 } else { suma_totales(t.drop_last()) + t.last().1 }
}

/// What the payments amount to.
pub open spec fn suma_montos(ps: Seq<PagoV>) -> int
    decreases ps.len(),
{
    if ps.len() == 0 { 0 } else { suma_montos(ps.drop_last()) + ps.last().monto }
}

proof fn lema_suma_actualizada(t: Seq<(Seq<char>, u64)>, i: int, v: (Seq<char>, u64))
    requires
        0 <= i < t.len(),
    ensures
        suma_totales(t.update(i, v)) == suma_totales(t) - t[i].1 + v.1,
        t[i].1 <= suma_totales(t),
        suma_totales(t) >= 0,
    decreases t.len(),
{
    if i == t.len() - 1 {
        assert(t.update(i, v).drop_last() =~= t.drop_last());
        lema_suma_no_negativa(t.drop_last());
    } else {
        lema_suma_actualizada(t.drop_last(), i, v);
        assert(t.update(i, v).drop_last() =~= t.drop_last().update(i, v));
        assert(t.drop_last()[i] == t[i]);
    }
}

proof fn lema_suma_no_negativa(t: Seq<(Seq<char>, u64)>)
    ensures
        suma_totales(t) >= 0,
    decreases t.len(),
{
    if t.len() > 0 {
        lema_suma_no_negativa(t.drop_last());
    }
}

proof fn lema_montos_no_negativos(ps: Seq<PagoV>)
    ensures
        suma_montos(ps) >= 0,
    decreases ps.len(),
{
    if ps.len() > 0 {
        lema_montos_no_negativos(ps.drop_last());
    }
}

/// A closed sale adds to the register exactly what its payments amount to, when every
/// payment has the total of its means of payment in the register and no total runs past
/// the range of `u64`; the means of payment stay as they were.
pub proof fn lema_totales_de_caja(t: Seq<(Seq<char>, u64)>, ps: Seq<PagoV>)
    requires
        medios_conocidos(t, ps),
        suma_totales(t) + suma_montos(ps) <= u64::MAX,
    ensures
        suma_totales(sumar_pagos(t, ps)) == suma_totales(t) + suma_montos(ps),
        sumar_pagos(t, ps).len() == t.len(),
        forall|j: int| 0 <= j < t.len() ==> #[trigger] sumar_pagos(t, ps)[j].0 == t[j].0,
    decreases ps.len(),
{
    if ps.len() > 0 {
        let q = ps.drop_last();
        assert forall|i: int| 0 <= i < q.len() implies (#[trigger] posicion(t, q[i].medio_pago.medio)) is Some by {
            assert(q[i] == ps[i]);
        }
        lema_montos_no_negativos(q);
        lema_totales_de_caja(t, q);
        let u = sumar_pagos(t, q);
        let m = ps.last().medio_pago.medio;
        assert(posicion(t, m) is Some) by {
            assert(ps.last() == ps[ps.len() - 1]);
        }
        lema_claves_iguales(t, u, m);
        lema_posicion(u, m);
        let i = posicion(u, m)->0;
        lema_suma_actualizada(u, i, (m, saturar(u[i].1 + ps.last().monto) as u64));
    }
}

/// The totals with the total of a means of payment set: a means already there takes the
/// amount, any other is added at the end, as a map from means to totals.
pub open spec fn con_total(t: Seq<(Seq<char>, u64)>, medio: Seq<char>, monto: u64) -> Seq<(Seq<char>, u64)> {
    match posicion(t, medio) {
        Some(i) => t.update(i, (medio, monto)),
        None => t.push((medio, monto)),
    }
}

/// No means of payment appears twice among the totals of a session, as in a map from
/// means to totals.
pub open spec fn medios_unicos(t: Seq<(Seq<char>, u64)>) -> bool {
    forall|i: int, j: int| 0 <= i < j < t.len() ==> t[i].0 != t[j].0
}

/// Whether the totals hold one for a means of payment.
pub open spec fn tiene_medio(t: Seq<(Seq<char>, u64)>, m: Seq<char>) -> bool {
    exists|k: int| 0 <= k < t.len() && #[trigger] t[k].0 == m
}

/// A zero total for each means of payment, each means once.
pub open spec fn totales_en_cero(medios: Seq<Seq<char>>) -> Seq<(Seq<char>, u64)>
    decreases medios.len(),
{
    if medios.len() == 0 {
        Seq::empty()
    } else {
        con_total(totales_en_cero(medios.drop_last()), medios.last(), 0)
    }
}

/// Setting the total of a means keeps every means once.
pub proof fn lema_con_total_unicos(t: Seq<(Seq<char>, u64)>, medio: Seq<char>, monto: u64)
    requires
        medios_unicos(t),
    ensures
        medios_unicos(con_total(t, medio, monto)),
        forall|m: Seq<char>| #[trigger] tiene_medio(con_total(t, medio, monto), m) <==> (m == medio || tiene_medio(t, m)),
{
    lema_posicion(t, medio);
    let r = con_total(t, medio, monto);
    assert forall|m: Seq<char>| tiene_medio(r, m) implies (m == medio || tiene_medio(t, m)) by {
        let k = choose|k: int| 0 <= k < r.len() && #[trigger] r[k].0 == m;
        if m != medio {
            assert(t[k].0 == m);
        }
    }
    assert forall|m: Seq<char>| (m == medio || tiene_medio(t, m)) implies tiene_medio(r, m) by {
        if m == medio {
            match posicion(t, medio) {
                Some(i) => assert(r[i].0 == m),
                None => assert(r[t.len() as int].0 == m),
            }
        } else {
            let k = choose|k: int| 0 <= k < t.len() && #[trigger] t[k].0 == m;
            assert(r[k].0 == m);
        }
    }
}

/// A zero total for each means of payment of the list, and no other, each means once.
pub proof fn lema_totales_en_cero(medios: Seq<Seq<char>>)
    ensures
        medios_unicos(totales_en_cero(medios)),
        forall|k: int| 0 <= k < totales_en_cero(medios).len() ==> #[trigger] totales_en_cero(medios)[k].1 == 0,
        forall|m: Seq<char>| #[trigger] tiene_medio(totales_en_cero(medios), m) <==> medios.contains(m),
    decreases medios.len(),
{
    if medios.len() > 0 {
        let d = medios.drop_last();
        lema_totales_en_cero(d);
        let t = totales_en_cero(d);
        lema_con_total_unicos(t, medios.last(), 0);
        lema_posicion(t, medios.last());
        assert forall|m: Seq<char>| medios.contains(m) <==> (m == medios.last() || d.contains(m)) by {
            if medios.contains(m) {
                let k = choose|k: int| 0 <= k < medios.len() && medios[k] == m;
                if k < d.len() {
                    assert(d[k] == m);
                }
            }
            if d.contains(m) {
                let k = choose|k: int| 0 <= k < d.len() && d[k] == m;
                assert(medios[k] == m);
            }
            if m == medios.last() {
                assert(medios[medios.len() - 1] == m);
            }
        }
    }
}

pub(crate) fn buscar(t: &Vec<(String, u64)>, medio: &str) -> (res: Option<usize>)
    ensures
        match res {
            Some(k) => posicion(vista_totales(t@), medio@) == Some(k as int) && k < t@.len(),
            None => posicion(vista_totales(t@), medio@) is None,
        },
{
    let ghost v = vista_totales(t@);
    proof {
        lema_posicion(v, medio@);
    }
    let mut i: usize = 0;
    while i < t.len()
        invariant
            v == vista_totales(t@),
            i <= t@.len(),
            forall|j: int| 0 <= j < i ==> #[trigger] v[j].0 != medio@,
            match posicion(v, medio@) {
                Some(k) => 0 <= k < v.len() && v[k].0 == medio@ && forall|j: int| 0 <= j < k ==> v[j].0 != medio@,
                None => forall|j: int| 0 <= j < v.len() ==> v[j].0 != medio@,
            },
        decreases t@.len() - i,
    {
        assert(v[i as int] == (t@[i as int].0@, t@[i as int].1));
        if iguales(t[i].0.as_str(), medio) {
            assert(v[i as int].0 == medio@);
            return Some(i);
        }
        i += 1;
    }
    None
}

impl Caja {
    pub fn build(
        id: i64,
        inicio: i64,
        cierre: Option<i64>,
        ventas_totales: u64,
        monto_inicio: u64,
        monto_cierre: Option<u64>,
        cajero: Option<String>,
        totales: Vec<(String, u64)>,
    ) -> (res: Caja)
        requires
            medios_unicos(vista_totales(totales@)),
        ensures
            res@ == (CajaV {
                id,
                inicio,
                cierre,
                ventas_totales,
                monto_inicio,
                monto_cierre,
                cajero: vista_cajero(cajero),
                totales: vista_totales(totales@),
            }),
    {
        Caja { id, inicio, cierre, ventas_totales, monto_inicio, monto_cierre, cajero, totales }
    }

    pub fn copia(&self) -> (res: Caja)
        ensures
            res@ == self@,
    {
        let mut totales: Vec<(String, u64)> = Vec::new();
        let mut i: usize = 0;
        while i < self.totales.len()
            invariant
                i <= self.totales@.len(),
                totales@.len() == i,
                forall|k: int| 0 <= k < i ==> (#[trigger] totales@[k]).0@ == self.totales@[k].0@ && totales@[k].1 == self.totales@[k].1,
            decreases self.totales@.len() - i,
        {
            let e = (self.totales[i].0.clone(), self.totales[i].1);
            totales.push(e);
            i += 1;
        }
        assert(vista_totales(totales@) =~= vista_totales(self.totales@));
        let cajero = match &self.cajero {
            Some(c) => Some(c.clone()),
            None => None,
        };
        Caja {
            id: self.id,
            inicio: self.inicio,
            cierre: self.cierre,
            ventas_totales: self.ventas_totales,
            monto_inicio: self.monto_inicio,
            monto_cierre: self.monto_cierre,
            cajero,
            totales,
        }
    }

    /// The session to work with, given the last one stored. An open last session goes on.
    /// After a closed one a new session opens with the next id, carrying its sales total and
    /// its cashier, with a zero total for each means of payment of the settings. With no
    /// session stored a first one opens with id zero and no totals. Opening needs an amount
    /// of cash to start with. The totals hold each means of payment once. The session read
    /// and the session to store are values here: reading and writing the store, with a row
    /// of values for each column, is the caller's.
    pub fn new(ultima: Option<Caja>, monto_de_inicio: Option<u64>, config: &Config, ahora: i64) -> (res: Result<Caja, AppError>)
        requires
            ultima matches Some(c) ==> c@.id < i64::MAX,
        ensures
            !(ultima matches Some(c) && c@.cierre is None) ==> (res matches Ok(n) ==> medios_unicos(n@.totales)),
            match ultima {
                Some(c) => match c@.cierre {
                    None => res matches Ok(n) && n@ == c@,
                    Some(_) => match monto_de_inicio {
                        Some(m) => res matches Ok(n) && n@ == (CajaV {
                            id: (c@.id + 1) as i64,
                            inicio: ahora,
                            cierre: None,
                            ventas_totales: c@.ventas_totales,
                            monto_inicio: m,
                            monto_cierre: None,
                            cajero: c@.cajero,
                            totales: totales_en_cero(config.medios_spec()),
                        }),
                        None => res matches Err(AppError::InicializationError(m)) && m@ == "Se requiere monto de inicio"@,
                    },
                },
                None => match monto_de_inicio {
                    Some(m) => res matches Ok(n) && n@ == (CajaV {
                        id: 0,
                        inicio: ahora,
                        cierre: None,
                        ventas_totales: 0,
                        monto_inicio: m,
                        monto_cierre: None,
                        cajero: None,
                        totales: Seq::empty(),
                    }),
                    None => res matches Err(AppError::InicializationError(m)) && m@ == "Se requiere monto de inicio"@,
                },
            },
    {
        proof {
            lema_totales_en_cero(config.medios_spec());
        }
        match ultima {
            Some(c) => {
                if c.cierre.is_none() {
                    return Ok(c);
                }
                match monto_de_inicio {
                    Some(monto) => {
                        let medios = config.medios_pago();
                        let ghost ms = config.medios_spec();
                        let mut totales: Vec<(String, u64)> = Vec::new();
                        let mut i: usize = 0;
                        while i < medios.len()
                            invariant
                                medios@.map_values(|m: String| m@) == ms,
                                i <= medios@.len(),
                                vista_totales(totales@) == totales_en_cero(ms.take(i as int)),
                            decreases medios@.len() - i,
                        {
                            assert(ms.take(i + 1).drop_last() =~= ms.take(i as int));
                            assert(ms[i as int] == medios@[i as int]@);
                            let ghost antes = vista_totales(totales@);
                            match buscar(&totales, medios[i].as_str()) {
                                Some(k) => {
                                    totales.set(k, (medios[i].clone(), 0));
                                    assert(vista_totales(totales@) =~= antes.update(k as int, (ms[i as int], 0u64)));
                                },
                                None => {
                                    totales.push((medios[i].clone(), 0));
                                    assert(vista_totales(totales@) =~= antes.push((ms[i as int], 0u64)));
                                },
                            }
                            i += 1;
                        }
                        assert(ms.take(ms.len() as int) =~= ms);
                        Ok(Caja {
                            id: c.id + 1,
                            inicio: ahora,
                            cierre: None,
                            ventas_totales: c.ventas_totales,
                            monto_inicio: monto,
                            monto_cierre: None,
                            cajero: c.cajero,
                            totales,
                        })
                    },
                    None => Err(AppError::InicializationError("Se requiere monto de inicio".to_string())),
                }
            },
            None => match monto_de_inicio {
                Some(monto) => {
                    let c = Caja {
                        id: 0,
                        inicio: ahora,
                        cierre: None,
                        ventas_totales: 0,
                        monto_inicio: monto,
                        monto_cierre: None,
                        cajero: None,
                        totales: Vec::new(),
                    };
                    assert(c@.totales =~= Seq::empty());
                    Ok(c)
                },
                None => Err(AppError::InicializationError("Se requiere monto de inicio".to_string())),
            },
        }
    }

    /// The row a movement of cash is stored in for this session: an income is marked true.
    pub fn hacer_movimiento(&self, mov: &Movimiento) -> (res: FilaMovimiento)
        ensures
            res.caja == self@.id,
            match *mov {
                Movimiento::Ingreso { descripcion, monto } => res.tipo && res.monto == monto
                    && vista_cajero(res.descripcion) == vista_cajero(descripcion),
                Movimiento::Egreso { descripcion, monto } => !res.tipo && res.monto == monto
                    && vista_cajero(res.descripcion) == vista_cajero(descripcion),
            },
    {
        match mov {
            Movimiento::Ingreso { descripcion, monto } => FilaMovimiento {
                caja: self.id,
                tipo: true,
                monto: *monto,
                descripcion: match descripcion {
                    Some(d) => Some(d.clone()),
                    None => None,
                },
            },
            Movimiento::Egreso { descripcion, monto } => FilaMovimiento {
                caja: self.id,
                tipo: false,
                monto: *monto,
                descripcion: match descripcion {
                    Some(d) => Some(d.clone()),
                    None => None,
                },
            },
        }
    }

    pub fn id(&self) -> (res: i64)
        ensures
            res == self@.id,
    {
        self.id
    }

    pub fn inicio(&self) -> (res: i64)
        ensures
            res == self@.inicio,
    {
        self.inicio
    }

    pub fn cierre(&self) -> (res: Option<i64>)
        ensures
            res == self@.cierre,
    {
        self.cierre
    }

    pub fn ventas_totales(&self) -> (res: u64)
        ensures
            res == self@.ventas_totales,
    {
        self.ventas_totales
    }

    pub fn monto_inicio(&self) -> (res: u64)
        ensures
            res == self@.monto_inicio,
    {
        self.monto_inicio
    }

    pub fn monto_cierre(&self) -> (res: Option<u64>)
        ensures
            res == self@.monto_cierre,
    {
        self.monto_cierre
    }

    pub fn cajero(&self) -> (res: Option<String>)
        ensures
            vista_cajero(res) == self@.cajero,
    {
        match &self.cajero {
            Some(c) => Some(c.clone()),
            None => None,
        }
    }

    pub fn totales(&self) -> (res: &Vec<(String, u64)>)
        ensures
            vista_totales(res@) == self@.totales,
    {
        &self.totales
    }

    pub fn set_cajero(&mut self, cajero: String)
        ensures
            final(self)@ == (CajaV { cajero: Some(cajero@), ..old(self)@ }),
    {
        self.cajero = Some(cajero);
    }

    /// Closes the session with the cash counted at the end, at the time `ahora`.
    pub fn set_n_save(&mut self, monto: u64, ahora: i64)
        ensures
            final(self)@ == (CajaV { monto_cierre: Some(monto), cierre: Some(ahora), ..old(self)@ }),
    {
        self.monto_cierre = Some(monto);
        self.cierre = Some(ahora);
    }

    /// Adds a closed sale to the session: its total to the sales of the session, and each
    /// payment to the total of its means of payment.
    pub fn update_total(&mut self, monto: u64, pagos: &Vec<Pago>)
        requires
            medios_conocidos(old(self)@.totales, pagos@.map_values(|p: Pago| p@)),
        ensures
            final(self)@ == (CajaV {
                ventas_totales: saturar(old(self)@.ventas_totales + monto) as u64,
                totales: sumar_pagos(old(self)@.totales, pagos@.map_values(|p: Pago| p@)),
                ..old(self)@
            }),
            medios_unicos(old(self)@.totales) ==> medios_unicos(final(self)@.totales),
    {
        let ghost ps = pagos@.map_values(|p: Pago| p@);
        let ghost t0 = self@.totales;
        let mut i: usize = 0;
        while i < pagos.len()
            invariant
                ps == pagos@.map_values(|p: Pago| p@),
                medios_conocidos(t0, ps),
                i <= pagos@.len(),
                self@.totales == sumar_pagos(t0, ps.take(i as int)),
                self@.totales.len() == t0.len(),
                forall|j: int| 0 <= j < t0.len() ==> #[trigger] self@.totales[j].0 == t0[j].0,
                self@ == (CajaV { totales: self@.totales, ..old(self)@ }),
            decreases pagos@.len() - i,
        {
            proof {
                assert(ps.take(i + 1).drop_last() == ps.take(i as int));
                assert(ps[i as int] == pagos@[i as int]@);
                assert(posicion(t0, ps[i as int].medio_pago.medio) is Some);
                lema_claves_iguales(t0, self@.totales, ps[i as int].medio_pago.medio);
                lema_posicion(self@.totales, ps[i as int].medio_pago.medio);
            }
            let medio = pagos[i].medio();
            let r = buscar(&self.totales, medio.as_str());
            let k = match r {
                Some(k) => k,
                None => { i += 1; continue; },
            };

            let ghost antes = self@.totales;
            let act = self.totales[k].1;
            let suma: u128 = act as u128 + pagos[i].monto() as u128;
            let nuevo: u64 = if suma > u64::MAX as u128 { u64::MAX } else { suma as u64 };
            proof {
                assert(antes[k as int] == (self.totales@[k as int].0@, self.totales@[k as int].1));
                assert(ps.take(i + 1).last() == ps[i as int]);
                assert(nuevo == saturar(antes[k as int].1 + ps[i as int].monto));
                assert(medio@ == ps[i as int].medio_pago.medio);
                assert(posicion(antes, ps[i as int].medio_pago.medio) == Some(k as int));
                assert(sumar_pagos(t0, ps.take(i + 1)) == sumar_pago(antes, ps[i as int].medio_pago.medio, ps[i as int].monto));
            }
            self.totales.set(k, (medio, nuevo));
            proof {
                assert(self@.totales =~= antes.update(k as int, (ps[i as int].medio_pago.medio, nuevo)));
                assert(self@.totales =~= sumar_pagos(t0, ps.take(i + 1)));
            }
            i += 1;
        }
        assert(ps.take(pagos@.len() as int) == ps);
        let suma: u128 = self.ventas_totales as u128 + monto as u128;
        self.ventas_totales = if suma > u64::MAX as u128 { u64::MAX } else { suma as u64 };
    }
}

} // verus!
