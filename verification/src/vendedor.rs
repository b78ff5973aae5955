use vstd::prelude::*;

verus! {

/// The abstract value of a seller.
pub struct VendedorV {
    pub id: i64,
    pub nombre: Seq<char>,
}

/// A seller of the store.
#[derive(Debug, Clone)]
pub struct Vendedor {
    id: i64,
    nombre: String,
}

impl View for Vendedor {
    type V = VendedorV;

    closed spec fn view(&self) -> VendedorV {
        VendedorV { id: self.id, nombre: self.nombre@ }
    }
}

impl Default for Vendedor {
    /// The first seller: id zero, "Vendedor 1".
    fn default() -> (res: Vendedor)
        ensures
            res@ == (VendedorV { id: 0, nombre: "Vendedor 1"@ }),
    {
        Vendedor { id: 0, nombre: "Vendedor 1".to_string() }
    }
}

impl Vendedor {
    pub fn new(id: i64, nombre: &str) -> (res: Vendedor)
        ensures
            res@ == (VendedorV { id, nombre: nombre@ }),
    {
        Vendedor { id, nombre: nombre.to_string() }
    }

    /// The seller to work with: the last one stored, or the first seller when none is.
    pub fn get_or_def(ultimo: Option<Vendedor>) -> (res: Vendedor)
        ensures
            res@ == match ultimo {
                Some(v) => v@,
                None => VendedorV { id: 0, nombre: "Vendedor 1"@ },
            },
    {
        match ultimo {
            Some(v) => v,
            None => Vendedor::default(),
        }
    }

    pub fn id(&self) -> (res: &i64)
        ensures
            *res == self@.id,
    {
        &self.id
    }

    pub fn nombre(&self) -> (res: &str)
        ensures
            res@ == self@.nombre,
    {
        self.nombre.as_str()
    }
}

} // verus!
