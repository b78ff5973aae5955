use vstd::prelude::*;

verus! {

/// A means of payment as the database holds it: its name and its id.
#[derive(Debug, Clone)]
pub struct MedioPago {
    medio: String,
    id: i64,
}

/// The record by which a means of payment travels to and from the screens.
#[derive(Debug, Clone)]
pub struct MedioPagoFND {
    pub medio: String,
    pub id: i64,
}

/// The abstract value of a means of payment.
pub struct MedioPagoV {
    pub medio: Seq<char>,
    pub id: i64,
}

impl View for MedioPago {
    type V = MedioPagoV;

    closed spec fn view(&self) -> MedioPagoV {
        MedioPagoV { medio: self.medio@, id: self.id }
    }
}

impl MedioPago {
    pub open spec fn medio_spec(&self) -> Seq<char> {
        self@.medio
    }

    pub open spec fn id_spec(&self) -> i64 {
        self@.id
    }

    pub fn copia(&self) -> (res: MedioPago)
        ensures
            res@ == self@,
    {
        MedioPago { medio: self.medio.clone(), id: self.id }
    }

    pub fn build(medio: &str, id: i64) -> (res: MedioPago)
        ensures
            res.medio_spec() == medio@,
            res.id_spec() == id,
    {
        MedioPago { medio: medio.to_string(), id }
    }

    /// Builds a means of payment, as `build` does.
    pub fn new(medio: &str, id: i64) -> (res: MedioPago)
        ensures
            res.medio_spec() == medio@,
            res.id_spec() == id,
    {
        MedioPago::build(medio, id)
    }

    pub fn id(&self) -> (res: &i64)
        ensures
            *res == self.id_spec(),
    {
        &self.id
    }

    pub fn desc(&self) -> (res: String)
        ensures
            res@ == self.medio_spec(),
    {
        self.medio.clone()
    }

    pub fn to_fnd(&self) -> (res: MedioPagoFND)
        ensures
            res.medio@ == self.medio_spec(),
            res.id == self.id_spec(),
    {
        MedioPagoFND { medio: self.medio.clone(), id: self.id }
    }

    pub fn from_fnd(medio: MedioPagoFND) -> (res: MedioPago)
        ensures
            res.medio_spec() == medio.medio@,
            res.id_spec() == medio.id,
    {
        MedioPago::build(medio.medio.as_str(), medio.id)
    }
}

/// Calls `rand::random::<i64>()`. Its value is drawn at random, so the contract states
/// nothing of it.
#[verifier::external_body]
fn id_aleatorio() -> i64 {
    rand::random::<i64>()
}

/// A payment of a sale: an internal id, the means of payment, the amount owed through it
/// and the part of it already paid (less than the amount on a current account).
/// Amounts are in cents.
#[derive(Debug, Clone)]
pub struct Pago {
    int_id: i64,
    medio_pago: MedioPago,
    monto: u64,
    pagado: u64,
}

/// The abstract value of a payment.
pub struct PagoV {
    pub id: i64,
    pub medio_pago: MedioPagoV,
    pub monto: u64,
    pub pagado: u64,
}

impl View for Pago {
    type V = PagoV;

    closed spec fn view(&self) -> PagoV {
        PagoV { id: self.int_id, medio_pago: self.medio_pago@, monto: self.monto, pagado: self.pagado }
    }
}

impl Pago {
    pub open spec fn id_spec(&self) -> i64 {
        self@.id
    }

    pub open spec fn medio_pago_spec(&self) -> MedioPagoV {
        self@.medio_pago
    }

    pub open spec fn monto_spec(&self) -> u64 {
        self@.monto
    }

    pub open spec fn pagado_spec(&self) -> u64 {
        self@.pagado
    }

    pub fn copia(&self) -> (res: Pago)
        ensures
            res@ == self@,
    {
        Pago { int_id: self.int_id, medio_pago: self.medio_pago.copia(), monto: self.monto, pagado: self.pagado }
    }

    /// A new payment under a random id; when `pagado` is not given the whole amount
    /// counts as paid.
    pub fn new(medio_pago: MedioPago, monto: u64, pagado: Option<u64>) -> (res: Pago)
        ensures
            res.medio_pago_spec() == medio_pago@,
            res.monto_spec() == monto,
            res.pagado_spec() == match pagado {
                Some(a) => a,
                None => monto,
            },
    {
        let int_id = id_aleatorio();
        Pago {
            int_id,
            medio_pago,
            monto,
            pagado: match pagado {
                Some(a) => a,
                None => monto,
            },
        }
    }

    /// An empty payment in cash under a random id; `efectivo` is the stored means of
    /// payment for cash.
    pub fn def(efectivo: MedioPago) -> (res: Pago)
        ensures
            res.medio_pago_spec() == efectivo@,
            res.monto_spec() == 0,
            res.pagado_spec() == 0,
    {
        Pago::new(efectivo, 0, Some(0))
    }

    pub fn build(int_id: i64, medio_pago: MedioPago, monto: u64, pagado: u64) -> (res: Pago)
        ensures
            res.id_spec() == int_id,
            res.medio_pago_spec() == medio_pago@,
            res.monto_spec() == monto,
            res.pagado_spec() == pagado,
    {
        Pago { int_id, medio_pago, monto, pagado }
    }

    pub fn medio_pago(&self) -> (res: &MedioPago)
        ensures
            res@ == self.medio_pago_spec(),
    {
        &self.medio_pago
    }

    /// The name of the means of payment.
    pub fn medio(&self) -> (res: String)
        ensures
            res@ == self.medio_pago_spec().medio,
    {
        self.medio_pago.desc()
    }

    pub fn monto(&self) -> (res: u64)
        ensures
            res == self.monto_spec(),
    {
        self.monto
    }

    pub fn id(&self) -> (res: i64)
        ensures
            res == self.id_spec(),
    {
        self.int_id
    }

    pub fn pagado(&self) -> (res: &u64)
        ensures
            *res == self.pagado_spec(),
    {
        &self.pagado
    }
}

} // verus!
