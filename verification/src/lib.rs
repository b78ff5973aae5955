use vstd::prelude::*;

pub mod caja;
pub mod calculo;
pub mod clave;
pub mod cliente;
pub mod config;
pub mod db;
pub mod error;
pub mod estilos;
pub mod pago;
pub mod proveedor;
pub mod sistema;
pub mod texto;
pub mod user;
pub mod valuable;
pub mod vendedor;
pub mod venta;

verus! {

} // verus!
