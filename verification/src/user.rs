use vstd::prelude::*;
use crate::texto::iguales;

verus! {

/// The rank of a user of the system.
#[derive(Debug, Clone, Copy, PartialEq, Eq, Structural)]
pub enum Rango {
    Admin,
    Cajero,
}

/// The name under which a rank is stored.
pub open spec fn nombre_rango(r: Rango) -> Seq<char> {
    match r {
        Rango::Admin => "Admin"@,
        Rango::Cajero => "Cajero"@,
    }
}

/// The rank stored under a name, if any.
pub open spec fn rango_de_nombre(s: Seq<char>) -> Option<Rango> {
    if s == "Admin"@ {
        Some(Rango::Admin)
    } else if s == "Cajero"@ {
        Some(Rango::Cajero)
    } else {
        None
    }
}

impl Rango {
    /// The name under which the rank is stored: "Admin" or "Cajero".
    pub fn to_string(&self) -> (res: String)
        ensures
            res@ == nombre_rango(*self),
    {
        match self {
            Rango::Admin => "Admin".to_string(),
            Rango::Cajero => "Cajero".to_string(),
        }
    }

    /// Reads a rank from its stored name.
    pub fn desde_texto(s: &str) -> (res: Option<Rango>)
        ensures
            res == rango_de_nombre(s@),
    {
        if iguales(s, "Admin") {
            Some(Rango::Admin)
        } else if iguales(s, "Cajero") {
            Some(Rango::Cajero)
        } else {
            None
        }
    }
}

/// Reading back the name of a rank gives the rank.
pub proof fn lema_rango_ida_y_vuelta(r: Rango)
    ensures
        rango_de_nombre(nombre_rango(r)) == Some(r),
{
    reveal_strlit("Admin");
    reveal_strlit("Cajero");
    if r == Rango::Cajero {
        assert(nombre_rango(r)[0] != "Admin"@[0]);
    }
}

/// A user: login id, display name, password hash and rank.
#[derive(Debug, Clone)]
pub struct User {
    id: String,
    nombre: String,
    pass: i64,
    rango: Rango,
}

/// The abstract value of a user.
pub struct UserV {
    pub id: Seq<char>,
    pub nombre: Seq<char>,
    pub pass: i64,
    pub rango: Rango,
}

impl View for User {
    type V = UserV;

    closed spec fn view(&self) -> UserV {
        UserV { id: self.id@, nombre: self.nombre@, pass: self.pass, rango: self.rango }
    }
}

impl User {
    pub open spec fn id_spec(&self) -> Seq<char> {
        self@.id
    }

    pub open spec fn nombre_spec(&self) -> Seq<char> {
        self@.nombre
    }

    pub open spec fn pass_spec(&self) -> i64 {
        self@.pass
    }

    pub open spec fn rango_spec(&self) -> Rango {
        self@.rango
    }

    pub fn copia(&self) -> (res: User)
        ensures
            res@ == self@,
    {
        User { id: self.id.clone(), nombre: self.nombre.clone(), pass: self.pass, rango: self.rango }
    }

    /// Builds a user; the rank is given by its stored name, which must be "Admin" or "Cajero".
    pub fn build(id: &str, nombre: &str, pass: i64, rango: &str) -> (res: User)
        requires
            rango_de_nombre(rango@) is Some,
        ensures
            res.id_spec() == id@,
            res.nombre_spec() == nombre@,
            res.pass_spec() == pass,
            Some(res.rango_spec()) == rango_de_nombre(rango@),
    {
        let r = match Rango::desde_texto(rango) {
            Some(r) => r,
            None => Rango::Cajero,
        };
        User { id: id.to_string(), nombre: nombre.to_string(), pass, rango: r }
    }

    /// Builds a user, as `build` does.
    pub fn new(id: &str, nombre: &str, pass: i64, rango: &str) -> (res: User)
        requires
            rango_de_nombre(rango@) is Some,
        ensures
            res.id_spec() == id@,
            res.nombre_spec() == nombre@,
            res.pass_spec() == pass,
            Some(res.rango_spec()) == rango_de_nombre(rango@),
    {
        User::build(id, nombre, pass, rango)
    }

    /// Registers a user; a user already stored under the same login id (`existente`) is an
    /// error.
    pub fn new_to_db(id: &str, nombre: &str, pass: i64, rango: &str, existente: bool) -> (res: Result<User, crate::error::AppError>)
        requires
            !existente ==> rango_de_nombre(rango@) is Some,
        ensures
            if existente {
                res matches Err(crate::error::AppError::IncorrectError(m)) && m@ == "Usuario existente"@
            } else {
                res matches Ok(u) && u.id_spec() == id@ && u.nombre_spec() == nombre@ && u.pass_spec() == pass
                    && Some(u.rango_spec()) == rango_de_nombre(rango@)
            },
    {
        if existente {
            Err(crate::error::AppError::IncorrectError("Usuario existente".to_string()))
        } else {
            Ok(User::build(id, nombre, pass, rango))
        }
    }

    pub fn rango(&self) -> (res: &Rango)
        ensures
            *res == self.rango_spec(),
    {
        &self.rango
    }

    pub fn id(&self) -> (res: &str)
        ensures
            res@ == self.id_spec(),
    {
        self.id.as_str()
    }

    pub fn nombre(&self) -> (res: String)
        ensures
            res@ == self.nombre_spec(),
    {
        self.nombre.clone()
    }

    /// The password hash.
    pub fn pass(&self) -> (res: i64)
        ensures
            res == self.pass_spec(),
    {
        self.pass
    }
}

} // verus!
