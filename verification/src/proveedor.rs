use vstd::prelude::*;
use crate::error::AppError;
use crate::texto::{decimal_con_signo, empujar, entero_a_texto};

verus! {

/// The abstract value of a supplier.
pub struct ProveedorV {
    pub id: i32,
    pub nombre: Seq<char>,
    pub contacto: Option<i64>,
}

/// A supplier: its name and, optionally, a contact number.
#[derive(Debug, Clone)]
pub struct Proveedor {
    id: i32,
    nombre: String,
    contacto: Option<i64>,
}

impl View for Proveedor {
    type V = ProveedorV;

    closed spec fn view(&self) -> ProveedorV {
        ProveedorV { id: self.id, nombre: self.nombre@, contacto: self.contacto }
    }
}

/// How a supplier is shown: its name, then its contact number when it has one.
pub open spec fn texto_proveedor(p: ProveedorV) -> Seq<char> {
    match p.contacto {
        Some(a) => p.nombre + seq![' '] + decimal_con_signo(a as int),
        None => p.nombre,
    }
}

impl Proveedor {
    pub fn build(id: i32, nombre: &str, contacto: Option<i64>) -> (res: Proveedor)
        ensures
            res@ == (ProveedorV { id, nombre: nombre@, contacto }),
    {
        Proveedor { id, nombre: nombre.to_string(), contacto }
    }

    /// Registers a supplier under `id`; a supplier already stored under the same name
    /// (`existente`) is an error.
    pub fn new_to_db(nombre: &str, contacto: Option<i64>, existente: bool, id: i32) -> (res: Result<Proveedor, AppError>)
        ensures
            if existente {
                res matches Err(AppError::ExistingError { objeto, instancia })
                    && objeto@ == "Proveedor"@ && instancia@ == nombre@
            } else {
                res matches Ok(p) && p@ == (ProveedorV { id, nombre: nombre@, contacto })
            },
    {
        if existente {
            Err(AppError::ExistingError { objeto: "Proveedor".to_string(), instancia: nombre.to_string() })
        } else {
            Ok(Proveedor::build(id, nombre, contacto))
        }
    }

    pub fn copia(&self) -> (res: Proveedor)
        ensures
            res@ == self@,
    {
        Proveedor { id: self.id, nombre: self.nombre.clone(), contacto: self.contacto }
    }

    pub fn nombre(&self) -> (res: String)
        ensures
            res@ == self@.nombre,
    {
        self.nombre.clone()
    }

    pub fn id(&self) -> (res: &i32)
        ensures
            *res == self@.id,
    {
        &self.id
    }

    pub fn contacto(&self) -> (res: &Option<i64>)
        ensures
            *res == self@.contacto,
    {
        &self.contacto
    }

    /// The supplier as it is shown: its name, then its contact number when it has one.
    pub fn to_string(&self) -> (res: String)
        ensures
            res@ == texto_proveedor(self@),
    {
        match self.contacto {
            Some(a) => {
                let mut s = self.nombre.clone();
                empujar(&mut s, ' ');
                let n = entero_a_texto(a);
                s.append(n.as_str());
                s
            },
            None => self.nombre.clone(),
        }
    }
}

/// The abstract value of a relation between a product and a supplier.
pub struct RelacionProdProvV {
    pub id_producto: i64,
    pub id_proveedor: i64,
    pub codigo_interno: Option<i64>,
}

/// That a product is bought from a supplier, possibly under the supplier's own code.
#[derive(Debug, Clone, Copy, PartialEq, Eq, Structural)]
pub struct RelacionProdProv {
    id_producto: i64,
    id_proveedor: i64,
    codigo_interno: Option<i64>,
}

impl View for RelacionProdProv {
    type V = RelacionProdProvV;

    closed spec fn view(&self) -> RelacionProdProvV {
        RelacionProdProvV {
            id_producto: self.id_producto,
            id_proveedor: self.id_proveedor,
            codigo_interno: self.codigo_interno,
        }
    }
}

impl RelacionProdProv {
    pub fn new(id_producto: i64, id_proveedor: i64, codigo_interno: Option<i64>) -> (res: RelacionProdProv)
        ensures
            res@ == (RelacionProdProvV { id_producto, id_proveedor, codigo_interno }),
    {
        RelacionProdProv { id_producto, id_proveedor, codigo_interno }
    }

    pub fn id_producto(&self) -> (res: &i64)
        ensures
            *res == self@.id_producto,
    {
        &self.id_producto
    }

    pub fn id_proveedor(&self) -> (res: &i64)
        ensures
            *res == self@.id_proveedor,
    {
        &self.id_proveedor
    }

    pub fn codigo_interno(&self) -> (res: Option<i64>)
        ensures
            res == self@.codigo_interno,
    {
        self.codigo_interno
    }
}

} // verus!
