use vstd::prelude::*;
use crate::calculo::{redondeo, redondeo_amplio, redondeo_spec, saturar};
use crate::config::{Config, Formato};
use crate::texto::{decimal, decimal_con_signo, digito, empujar, entero_a_texto, es_digito, escribir_natural, fraccion_milesimas, milesimas_spec, solo_digitos};

verus! {

/// How a product is sold. `Gr`, `Lt` and `Kg` carry their amount in thousandths;
/// `Un`, `Ml` and `CC` carry whole units.
#[derive(Debug, Clone, Copy, PartialEq, Eq, Structural)]
pub enum Presentacion {
    Gr(u32),
    Un(i16),
    Lt(u32),
    Ml(i16),
    CC(i16),
    Kg(u32),
}

/// The writing of an amount given in thousandths, as a decimal number without trailing zeros:
/// 500000 is "500", 1500 is "1.5", 25 is "0.025".
pub open spec fn texto_milesimas(m: nat) -> Seq<char> {
    let entero = m / 1000;
    let frac: int = (m % 1000) as int;
    if frac == 0 {
        decimal(entero)
    } else if frac % 100 == 0 {
        decimal(entero) + seq!['.', digito(frac / 100)]
    } else if frac % 10 == 0 {
        decimal(entero) + seq!['.', digito(frac / 100), digito((frac / 10) % 10)]
    } else {
        decimal(entero) + seq!['.', digito(frac / 100), digito((frac / 10) % 10), digito(frac % 10)]
    }
}

/// Writing an amount in thousandths and reading it back gives it back.
pub proof fn lema_milesimas_ida_y_vuelta(m: u32)
    ensures
        milesimas_spec(texto_milesimas(m as nat)) == Some(m as int),
{
    let entero = (m / 1000) as nat;
    let frac: int = (m % 1000) as int;
    crate::texto::lema_valor_decimal(entero);
    let d = decimal(entero);
    if frac == 0 {
        crate::texto::lema_partes_sin_separador(d, '.');
    } else {
        let f = if frac % 100 == 0 {
            seq![digito(frac / 100)]
        } else if frac % 10 == 0 {
            seq![digito(frac / 100), digito((frac / 10) % 10)]
        } else {
            seq![digito(frac / 100), digito((frac / 10) % 10), digito(frac % 10)]
        };
        crate::texto::lema_digito(frac / 100);
        crate::texto::lema_digito((frac / 10) % 10);
        crate::texto::lema_digito(frac % 10);
        assert(solo_digitos(f));
        assert(!f.contains('.')) by {
            if f.contains('.') {
                let k = choose|k: int| 0 <= k < f.len() && f[k] == '.';
                assert(es_digito(f[k]));
            }
        }
        assert(texto_milesimas(m as nat) =~= d + seq!['.'] + f);
        crate::texto::lema_partes_dos(d, f, '.');
        assert(fraccion_milesimas(f) == frac);
    }
}

fn caracter(d: u32) -> (c: char)
    requires
        d < 10,
    ensures
        c == digito(d as int),
{
    if d == 0 { '0' } else if d == 1 { '1' } else if d == 2 { '2' } else if d == 3 { '3' }
    else if d == 4 { '4' } else if d == 5 { '5' } else if d == 6 { '6' } else if d == 7 { '7' }
    else if d == 8 { '8' } else { '9' }
}

/// Writes an amount given in thousandths as a decimal number without trailing zeros.
pub fn milesimas_a_texto(m: u32) -> (res: String)
    ensures
        res@ == texto_milesimas(m as nat),
{
    let mut s = String::new();
    escribir_natural(&mut s, (m / 1000) as u64);
    let frac = m % 1000;
    if frac != 0 {
        empujar(&mut s, '.');
        empujar(&mut s, caracter(frac / 100));
        if frac % 100 != 0 {
            empujar(&mut s, caracter((frac / 10) % 10));
            if frac % 10 != 0 {
                empujar(&mut s, caracter(frac % 10));
            }
        }
    }
    assert(s@ =~= texto_milesimas(m as nat));
    s
}

pub open spec fn unidad_presentacion(p: Presentacion) -> Seq<char> {
    match p {
        Presentacion::Gr(_) => "Gr"@,
        Presentacion::Un(_) => "Un"@,
        Presentacion::Lt(_) => "Lt"@,
        Presentacion::Ml(_) => "Ml"@,
        Presentacion::CC(_) => "CC"@,
        Presentacion::Kg(_) => "Kg"@,
    }
}

/// The amount of a presentation, written as `Display` writes it.
pub open spec fn cantidad_presentacion_texto(p: Presentacion) -> Seq<char> {
    match p {
        Presentacion::Gr(c) => texto_milesimas(c as nat),
        Presentacion::Lt(c) => texto_milesimas(c as nat),
        Presentacion::Kg(c) => texto_milesimas(c as nat),
        Presentacion::Un(c) => decimal_con_signo(c as int),
        Presentacion::Ml(c) => decimal_con_signo(c as int),
        Presentacion::CC(c) => decimal_con_signo(c as int),
    }
}

/// The unit a presentation is stored under, if the name is one of them.
pub open spec fn presentacion_de(unidad: Seq<char>, milesimas: u32) -> Option<Presentacion> {
    let entero = if milesimas / 1000 > i16::MAX { i16::MAX as int } else { (milesimas / 1000) as int };
    if unidad == "Gr"@ {
        Some(Presentacion::Gr(milesimas))
    } else if unidad == "Un"@ {
        Some(Presentacion::Un(entero as i16))
    } else if unidad == "Lt"@ {
        Some(Presentacion::Lt(milesimas))
    } else if unidad == "Ml"@ {
        Some(Presentacion::Ml(entero as i16))
    } else if unidad == "CC"@ {
        Some(Presentacion::CC(entero as i16))
    } else if unidad == "Kg"@ {
        Some(Presentacion::Kg(milesimas))
    } else {
        None
    }
}

impl Presentacion {
    /// The amount in thousandths; whole units count a thousand each.
    pub fn get_cantidad(&self) -> (res: i64)
        ensures
            res == match *self {
                Presentacion::Gr(c) => c as int,
                Presentacion::Lt(c) => c as int,
                Presentacion::Kg(c) => c as int,
                Presentacion::Un(c) => c * 1000,
                Presentacion::Ml(c) => c * 1000,
                Presentacion::CC(c) => c * 1000,
            },
    {
        match self {
            Presentacion::Gr(c) => *c as i64,
            Presentacion::Un(c) => *c as i64 * 1000,
            Presentacion::Lt(c) => *c as i64,
            Presentacion::Ml(c) => *c as i64 * 1000,
            Presentacion::CC(c) => *c as i64 * 1000,
            Presentacion::Kg(c) => *c as i64,
        }
    }

    /// The name of the unit: "Gr", "Un", "Lt", "Ml", "CC" or "Kg".
    pub fn get_string(&self) -> (res: String)
        ensures
            res@ == unidad_presentacion(*self),
    {
        match self {
            Presentacion::Gr(_) => "Gr".to_string(),
            Presentacion::Un(_) => "Un".to_string(),
            Presentacion::Lt(_) => "Lt".to_string(),
            Presentacion::Ml(_) => "Ml".to_string(),
            Presentacion::CC(_) => "CC".to_string(),
            Presentacion::Kg(_) => "Kg".to_string(),
        }
    }

    /// The amount followed by the unit, such as "500 Gr" or "1.5 Lt".
    pub fn to_string(&self) -> (res: String)
        ensures
            res@ == cantidad_presentacion_texto(*self) + seq![' '] + unidad_presentacion(*self),
    {
        let mut s = self.cantidad_texto();
        empujar(&mut s, ' ');
        let u = self.get_string();
        s.append(u.as_str());
        s
    }

    fn cantidad_texto(&self) -> (res: String)
        ensures
            res@ == cantidad_presentacion_texto(*self),
    {
        match self {
            Presentacion::Gr(c) => milesimas_a_texto(*c),
            Presentacion::Lt(c) => milesimas_a_texto(*c),
            Presentacion::Kg(c) => milesimas_a_texto(*c),
            Presentacion::Un(c) => entero_a_texto(*c as i64),
            Presentacion::Ml(c) => entero_a_texto(*c as i64),
            Presentacion::CC(c) => entero_a_texto(*c as i64),
        }
    }

    /// The presentation stored under a unit name with an amount in thousandths; whole
    /// units keep the integer part, held at `i16::MAX`. An unknown unit is an error.
    pub fn build(unidad: &str, milesimas: u32) -> (res: Result<Presentacion, crate::error::AppError>)
        ensures
            match presentacion_de(unidad@, milesimas) {
                Some(p) => res == Ok::<Presentacion, crate::error::AppError>(p),
                None => res matches Err(crate::error::AppError::SizeSelection(s)) && s@ == unidad@,
            },
    {
        let entero: i16 = if milesimas / 1000 > i16::MAX as u32 { i16::MAX } else { (milesimas / 1000) as i16 };
        if crate::texto::iguales(unidad, "Gr") {
            Ok(Presentacion::Gr(milesimas))
        } else if crate::texto::iguales(unidad, "Un") {
            Ok(Presentacion::Un(entero))
        } else if crate::texto::iguales(unidad, "Lt") {
            Ok(Presentacion::Lt(milesimas))
        } else if crate::texto::iguales(unidad, "Ml") {
            Ok(Presentacion::Ml(entero))
        } else if crate::texto::iguales(unidad, "CC") {
            Ok(Presentacion::CC(entero))
        } else if crate::texto::iguales(unidad, "Kg") {
            Ok(Presentacion::Kg(milesimas))
        } else {
            Err(crate::error::AppError::SizeSelection(unidad.to_string()))
        }
    }
}

impl Default for Presentacion {
    fn default() -> (res: Presentacion)
        ensures
            res == Presentacion::Un(0),
    {
        Presentacion::Un(0)
    }
}

/// The abstract value of a product.
pub struct ProductoV {
    pub id: i64,
    pub codigos_de_barras: Seq<i64>,
    pub precio_de_venta: u64,
    pub porcentaje: u64,
    pub precio_de_costo: u64,
    pub tipo_producto: Seq<char>,
    pub marca: Seq<char>,
    pub variedad: Seq<char>,
    pub presentacion: Presentacion,
}

/// A product sold by the unit. Prices are in cents; the margin in hundredths of a percent.
#[derive(Debug, Clone)]
pub struct Producto {
    id: i64,
    codigos_de_barras: Vec<i64>,
    precio_de_venta: u64,
    porcentaje: u64,
    precio_de_costo: u64,
    tipo_producto: String,
    marca: String,
    variedad: String,
    presentacion: Presentacion,
}

impl View for Producto {
    type V = ProductoV;

    closed spec fn view(&self) -> ProductoV {
        ProductoV {
            id: self.id,
            codigos_de_barras: self.codigos_de_barras@,
            precio_de_venta: self.precio_de_venta,
            porcentaje: self.porcentaje,
            precio_de_costo: self.precio_de_costo,
            tipo_producto: self.tipo_producto@,
            marca: self.marca@,
            variedad: self.variedad@,
            presentacion: self.presentacion,
        }
    }
}

/// Whether two products share a bar code: that is how products are told equal.
pub open spec fn comparten_codigo(a: ProductoV, b: ProductoV) -> bool {
    exists|i: int, j: int|
        0 <= i < a.codigos_de_barras.len() && 0 <= j < b.codigos_de_barras.len()
            && #[trigger] a.codigos_de_barras[i] == #[trigger] b.codigos_de_barras[j]
}

impl Producto {
    /// Deleting the product, given whether it is stored: the id of its row.
    pub fn eliminar(&self, guardado: bool) -> (res: Result<i64, crate::error::AppError>)
        ensures
            guardado ==> res == Ok::<i64, crate::error::AppError>(self@.id),
            !guardado ==> no_encontrado(res, "Producto"@, self@.id),
    {
        fila_guardada("Producto", self.id, guardado)
    }

    /// Editing the product, given whether it is stored: the id of its row, when its sale
    /// price is its cost plus its margin.
    pub fn editar(&self, guardado: bool) -> (res: Result<i64, crate::error::AppError>)
        ensures
            edicion(res, "Producto"@, self@.id, guardado,
                precio_coherente(self@.precio_de_venta, self@.precio_de_costo, self@.porcentaje)),
    {
        if guardado && !verificar_precio(self.precio_de_venta, self.precio_de_costo, self.porcentaje) {
            return Err(crate::error::AppError::IncorrectError("Cálculo de precio incorrecto".to_string()));
        }
        fila_guardada("Producto", self.id, guardado)
    }

    pub fn new(
        id: i64,
        codigos_de_barras: Vec<i64>,
        precio_de_venta: u64,
        porcentaje: u64,
        precio_de_costo: u64,
        tipo_producto: &str,
        marca: &str,
        variedad: &str,
        presentacion: Presentacion,
    ) -> (res: Producto)
        ensures
            res@ == (ProductoV {
                id,
                codigos_de_barras: codigos_de_barras@,
                precio_de_venta,
                porcentaje,
                precio_de_costo,
                tipo_producto: tipo_producto@,
                marca: marca@,
                variedad: variedad@,
                presentacion,
            }),
    {
        Producto {
            id,
            codigos_de_barras,
            precio_de_venta,
            porcentaje,
            precio_de_costo,
            tipo_producto: tipo_producto.to_string(),
            marca: marca.to_string(),
            variedad: variedad.to_string(),
            presentacion,
        }
    }

    /// The brand, kind, variety and presentation of the product, separated by spaces.
    pub fn nombre_completo(&self) -> (res: String)
        ensures
            res@ == self@.marca + seq![' '] + self@.tipo_producto + seq![' '] + self@.variedad + seq![' ']
                + cantidad_presentacion_texto(self@.presentacion) + seq![' '] + unidad_presentacion(self@.presentacion),
    {
        let mut s = self.marca.clone();
        empujar(&mut s, ' ');
        s.append(self.tipo_producto.as_str());
        empujar(&mut s, ' ');
        s.append(self.variedad.as_str());
        empujar(&mut s, ' ');
        let p = self.presentacion.to_string();
        s.append(p.as_str());
        s
    }

    /// The kind, brand, variety, amount and unit of the product, separated by spaces.
    pub fn desc(&self) -> (res: String)
        ensures
            res@ == self@.tipo_producto + seq![' '] + self@.marca + seq![' '] + self@.variedad + seq![' ']
                + cantidad_presentacion_texto(self@.presentacion) + seq![' '] + unidad_presentacion(self@.presentacion),
    {
        let mut s = self.tipo_producto.clone();
        empujar(&mut s, ' ');
        s.append(self.marca.as_str());
        empujar(&mut s, ' ');
        s.append(self.variedad.as_str());
        empujar(&mut s, ' ');
        let p = self.presentacion.to_string();
        s.append(p.as_str());
        s
    }

    /// Removes the bar code at `i`.
    pub fn rm_code(&mut self, i: usize)
        requires
            i < old(self)@.codigos_de_barras.len(),
        ensures
            final(self)@ == (ProductoV { codigos_de_barras: old(self)@.codigos_de_barras.remove(i as int), ..old(self)@ }),
    {
        self.codigos_de_barras.remove(i);
    }

    /// A copy of the product.
    pub fn copia(&self) -> (res: Producto)
        ensures
            res@ == self@,
    {
        let codigos = self.codigos_de_barras.clone();
        assert(codigos@ =~= self.codigos_de_barras@);
        Producto {
            id: self.id,
            codigos_de_barras: codigos,
            precio_de_venta: self.precio_de_venta,
            porcentaje: self.porcentaje,
            precio_de_costo: self.precio_de_costo,
            tipo_producto: self.tipo_producto.clone(),
            marca: self.marca.clone(),
            variedad: self.variedad.clone(),
            presentacion: self.presentacion,
        }
    }

    pub fn id(&self) -> (res: &i64)
        ensures
            *res == self@.id,
    {
        &self.id
    }

    pub fn codigos_de_barras(&self) -> (res: &Vec<i64>)
        ensures
            res@ == self@.codigos_de_barras,
    {
        &self.codigos_de_barras
    }

    pub fn precio_de_venta(&self) -> (res: &u64)
        ensures
            *res == self@.precio_de_venta,
    {
        &self.precio_de_venta
    }

    pub fn porcentaje(&self) -> (res: &u64)
        ensures
            *res == self@.porcentaje,
    {
        &self.porcentaje
    }

    pub fn precio_de_costo(&self) -> (res: &u64)
        ensures
            *res == self@.precio_de_costo,
    {
        &self.precio_de_costo
    }

    pub fn tipo_producto(&self) -> (res: String)
        ensures
            res@ == self@.tipo_producto,
    {
        self.tipo_producto.clone()
    }

    pub fn marca(&self) -> (res: String)
        ensures
            res@ == self@.marca,
    {
        self.marca.clone()
    }

    pub fn variedad(&self) -> (res: String)
        ensures
            res@ == self@.variedad,
    {
        self.variedad.clone()
    }

    pub fn presentacion(&self) -> (res: &Presentacion)
        ensures
            *res == self@.presentacion,
    {
        &self.presentacion
    }

    /// Whether the two products share a bar code.
    pub fn eq(&self, other: &Producto) -> (res: bool)
        ensures
            res == comparten_codigo(self@, other@),
    {
        let mut i: usize = 0;
        while i < self.codigos_de_barras.len()
            invariant
                i <= self@.codigos_de_barras.len(),
                forall|a: int, b: int|
                    0 <= a < i && 0 <= b < other@.codigos_de_barras.len()
                        ==> self@.codigos_de_barras[a] != other@.codigos_de_barras[b],
            decreases self@.codigos_de_barras.len() - i,
        {
            let code = self.codigos_de_barras[i];
            let mut j: usize = 0;
            while j < other.codigos_de_barras.len()
                invariant
                    i < self@.codigos_de_barras.len(),
                    code == self@.codigos_de_barras[i as int],
                    j <= other@.codigos_de_barras.len(),
                    forall|b: int| 0 <= b < j ==> code != other@.codigos_de_barras[b],
                decreases other@.codigos_de_barras.len() - j,
            {
                if other.codigos_de_barras[j] == code {
                    assert(self@.codigos_de_barras[i as int] == other@.codigos_de_barras[j as int]);
                    return true;
                }
                j += 1;
            }
            i += 1;
        }
        false
    }
}

/// The abstract value of a product sold by weight.
pub struct PesableV {
    pub id: i64,
    pub codigo: i64,
    pub precio_peso: u64,
    pub porcentaje: u64,
    pub costo_kilo: u64,
    pub descripcion: Seq<char>,
}

/// A product sold by weight; prices are in cents per kilogram.
#[derive(Debug, Clone)]
pub struct Pesable {
    id: i64,
    codigo: i64,
    precio_peso: u64,
    porcentaje: u64,
    costo_kilo: u64,
    descripcion: String,
}

impl View for Pesable {
    type V = PesableV;

    closed spec fn view(&self) -> PesableV {
        PesableV {
            id: self.id,
            codigo: self.codigo,
            precio_peso: self.precio_peso,
            porcentaje: self.porcentaje,
            costo_kilo: self.costo_kilo,
            descripcion: self.descripcion@,
        }
    }
}

impl Pesable {
    /// Deleting the article, given whether it is stored: the id of its row.
    pub fn eliminar(&self, guardado: bool) -> (res: Result<i64, crate::error::AppError>)
        ensures
            guardado ==> res == Ok::<i64, crate::error::AppError>(self@.id),
            !guardado ==> no_encontrado(res, "Pesable"@, self@.id),
    {
        fila_guardada("Pesable", self.id, guardado)
    }

    /// Editing the article, given whether it is stored: the id of its row, when its price
    /// per kilogram is its cost plus its margin.
    pub fn editar(&self, guardado: bool) -> (res: Result<i64, crate::error::AppError>)
        ensures
            edicion(res, "Pesable"@, self@.id, guardado,
                precio_coherente(self@.precio_peso, self@.costo_kilo, self@.porcentaje)),
    {
        if guardado && !verificar_precio(self.precio_peso, self.costo_kilo, self.porcentaje) {
            return Err(crate::error::AppError::IncorrectError("Cálculo de precio incorrecto".to_string()));
        }
        fila_guardada("Pesable", self.id, guardado)
    }

    pub fn build(
        id: i64,
        codigo: i64,
        precio_peso: u64,
        porcentaje: u64,
        costo_kilo: u64,
        descripcion: &str,
    ) -> (res: Pesable)
        ensures
            res@ == (PesableV { id, codigo, precio_peso, porcentaje, costo_kilo, descripcion: descripcion@ }),
    {
        Pesable { id, codigo, precio_peso, porcentaje, costo_kilo, descripcion: descripcion.to_string() }
    }

    /// Registers an article sold by weight under `id`; an article already stored under the
    /// same code (`existente`) is an error.
    pub fn new_to_db(
        codigo: i64,
        precio_peso: u64,
        porcentaje: u64,
        costo_kilo: u64,
        descripcion: &str,
        existente: bool,
        id: i64,
    ) -> (res: Result<Pesable, crate::error::AppError>)
        ensures
            if existente {
                res matches Err(crate::error::AppError::ExistingError { objeto, instancia })
                    && objeto@ == "Pesable"@ && instancia@ == decimal_con_signo(codigo as int)
            } else {
                res matches Ok(p) && p@ == (PesableV { id, codigo, precio_peso, porcentaje, costo_kilo, descripcion: descripcion@ })
            },
    {
        if existente {
            Err(crate::error::AppError::ExistingError { objeto: "Pesable".to_string(), instancia: entero_a_texto(codigo) })
        } else {
            Ok(Pesable::build(id, codigo, precio_peso, porcentaje, costo_kilo, descripcion))
        }
    }

    pub fn copia(&self) -> (res: Pesable)
        ensures
            res@ == self@,
    {
        Pesable {
            id: self.id,
            codigo: self.codigo,
            precio_peso: self.precio_peso,
            porcentaje: self.porcentaje,
            costo_kilo: self.costo_kilo,
            descripcion: self.descripcion.clone(),
        }
    }

    pub fn id(&self) -> (res: &i64)
        ensures
            *res == self@.id,
    {
        &self.id
    }

    pub fn codigo(&self) -> (res: &i64)
        ensures
            *res == self@.codigo,
    {
        &self.codigo
    }

    pub fn precio_peso(&self) -> (res: &u64)
        ensures
            *res == self@.precio_peso,
    {
        &self.precio_peso
    }

    pub fn porcentaje(&self) -> (res: &u64)
        ensures
            *res == self@.porcentaje,
    {
        &self.porcentaje
    }

    pub fn costo_kilo(&self) -> (res: &u64)
        ensures
            *res == self@.costo_kilo,
    {
        &self.costo_kilo
    }

    pub fn descripcion(&self) -> (res: String)
        ensures
            res@ == self@.descripcion,
    {
        self.descripcion.clone()
    }

    pub fn desc(&self) -> (res: String)
        ensures
            res@ == self@.descripcion,
    {
        self.descripcion.clone()
    }
}

/// The abstract value of a department, an item sold by a free amount.
pub struct RubroV {
    pub id: i64,
    pub codigo: i64,
    pub monto: Option<u64>,
    pub descripcion: Seq<char>,
}

/// A department: an item sold at an amount in cents given at the counter.
#[derive(Debug, Clone)]
pub struct Rubro {
    id: i64,
    codigo: i64,
    monto: Option<u64>,
    descripcion: String,
}

impl View for Rubro {
    type V = RubroV;

    closed spec fn view(&self) -> RubroV {
        RubroV { id: self.id, codigo: self.codigo, monto: self.monto, descripcion: self.descripcion@ }
    }
}

impl Rubro {
    /// Deleting the department, given whether it is stored: the id of its row.
    pub fn eliminar(&self, guardado: bool) -> (res: Result<i64, crate::error::AppError>)
        ensures
            guardado ==> res == Ok::<i64, crate::error::AppError>(self@.id),
            !guardado ==> no_encontrado(res, "Rubro"@, self@.id),
    {
        fila_guardada("Rubro", self.id, guardado)
    }

    /// Editing the department, given whether it is stored: the id of its row.
    pub fn editar(&self, guardado: bool) -> (res: Result<i64, crate::error::AppError>)
        ensures
            guardado ==> res == Ok::<i64, crate::error::AppError>(self@.id),
            !guardado ==> no_encontrado(res, "Rubro"@, self@.id),
    {
        fila_guardada("Rubro", self.id, guardado)
    }

    pub fn new(id: i64, codigo: i64, monto: Option<u64>, descripcion: &str) -> (res: Rubro)
        ensures
            res@ == (RubroV { id, codigo, monto, descripcion: descripcion@ }),
    {
        Rubro { id, codigo, monto, descripcion: descripcion.to_string() }
    }

    pub fn build(id: i64, codigo: i64, monto: Option<u64>, descripcion: &str) -> (res: Rubro)
        ensures
            res@ == (RubroV { id, codigo, monto, descripcion: descripcion@ }),
    {
        Rubro::new(id, codigo, monto, descripcion)
    }

    /// Registers a department under `id`; a code already stored is an error, told apart by
    /// whether it belongs to a department.
    pub fn new_to_db(
        codigo: i64,
        monto: Option<u64>,
        descripcion: &str,
        encontrado: Option<crate::db::CodeDB>,
        id: i64,
    ) -> (res: Result<Rubro, crate::error::AppError>)
        ensures
            match encontrado {
                Some(c) => res matches Err(crate::error::AppError::IncorrectError(m)) && m@ == (if c.rubro is Some {
                    "rubro existente"@
                } else {
                    "existe el codigo pero no corresponde a un rubro"@
                }),
                None => res matches Ok(r) && r@ == (RubroV { id, codigo, monto, descripcion: descripcion@ }),
            },
    {
        match encontrado {
            Some(c) => match c.rubro {
                Some(_) => Err(crate::error::AppError::IncorrectError("rubro existente".to_string())),
                None => Err(crate::error::AppError::IncorrectError("existe el codigo pero no corresponde a un rubro".to_string())),
            },
            None => Ok(Rubro::build(id, codigo, monto, descripcion)),
        }
    }

    pub fn copia(&self) -> (res: Rubro)
        ensures
            res@ == self@,
    {
        Rubro { id: self.id, codigo: self.codigo, monto: self.monto, descripcion: self.descripcion.clone() }
    }

    pub fn id(&self) -> (res: &i64)
        ensures
            *res == self@.id,
    {
        &self.id
    }

    pub fn monto(&self) -> (res: Option<u64>)
        ensures
            res == self@.monto,
    {
        self.monto
    }

    pub fn codigo(&self) -> (res: &i64)
        ensures
            *res == self@.codigo,
    {
        &self.codigo
    }

    pub fn descripcion(&self) -> (res: String)
        ensures
            res@ == self@.descripcion,
    {
        self.descripcion.clone()
    }

    pub fn desc(&self) -> (res: String)
        ensures
            res@ == self@.descripcion,
    {
        self.descripcion.clone()
    }
}

/// The abstract value of an item of a sale.
pub enum ValuableV {
    Prod(u8, ProductoV),
    Pes(u32, PesableV),
    Rub(u8, RubroV),
}

/// An item of a sale with its quantity: units of a product, thousandths of a kilogram
/// of a product sold by weight, or units of a department.
#[derive(Debug)]
pub enum Valuable {
    Prod((u8, Producto)),
    Pes((u32, Pesable)),
    Rub((u8, Rubro)),
}

impl View for Valuable {
    type V = ValuableV;

    open spec fn view(&self) -> ValuableV {
        match self {
            Valuable::Prod(a) => ValuableV::Prod(a.0, a.1@),
            Valuable::Pes(a) => ValuableV::Pes(a.0, a.1@),
            Valuable::Rub(a) => ValuableV::Rub(a.0, a.1@),
        }
    }
}

/// Two items are the same article when they are of the same kind and have the same id.
pub open spec fn mismo_articulo(a: ValuableV, b: ValuableV) -> bool {
    match (a, b) {
        (ValuableV::Prod(_, x), ValuableV::Prod(_, y)) => x.id == y.id,
        (ValuableV::Pes(_, x), ValuableV::Pes(_, y)) => x.id == y.id,
        (ValuableV::Rub(_, x), ValuableV::Rub(_, y)) => x.id == y.id,
        _ => false,
    }
}

/// What an item adds to the total of a sale, in cents: the price times the quantity,
/// and for an item sold by weight the price of the weight rounded to the policy.
/// A department without an amount adds nothing.
pub open spec fn linea(v: ValuableV, politica: int) -> int {
    match v {
        ValuableV::Prod(c, p) => p.precio_de_venta * c,
        ValuableV::Pes(c, p) => redondeo_spec(politica * 1000, c * p.precio_peso) / 1000,
        ValuableV::Rub(c, r) => match r.monto {
            Some(m) => m * c,
            None => 0,
        },
    }
}

/// The price of an item as shown while searching: the rounded unit price of a product
/// or department, and the rounded price of the weight of an item sold by weight.
pub open spec fn precio_spec(v: ValuableV, politica: int) -> Option<int> {
    match v {
        ValuableV::Prod(_, p) => Some(saturar(redondeo_spec(politica, p.precio_de_venta as int))),
        ValuableV::Pes(c, p) => Some(saturar(redondeo_spec(politica * 1000, c * p.precio_peso) / 1000)),
        ValuableV::Rub(_, r) => match r.monto {
            Some(m) => Some(saturar(redondeo_spec(politica, m as int))),
            None => None,
        },
    }
}

/// The description of an item under the settings' format.
pub open spec fn descripcion_spec(v: ValuableV, formato: Formato) -> Seq<char> {
    match v {
        ValuableV::Pes(_, p) => p.descripcion,
        ValuableV::Rub(_, r) => r.descripcion,
        ValuableV::Prod(_, p) => match formato {
            Formato::Mtv => p.marca + seq![' '] + p.tipo_producto + seq![' '] + p.variedad + seq![' ']
                + cantidad_presentacion_texto(p.presentacion) + seq![' ']
                + unidad_presentacion(p.presentacion),
            Formato::Tmv => p.tipo_producto + seq![' '] + p.marca + seq![' '] + p.variedad,
        },
    }
}

/// The line amount of an item sold by weight, computed wide.
pub(crate) fn linea_pesable(cantidad: u32, precio: u64, politica: u64) -> (res: u128)
    ensures
        res == redondeo_spec(politica * 1000, cantidad * precio) / 1000,
        res <= 0x1_0000_0000_0000_0000_0000_0000u128,
{
    proof {
        assert(cantidad * precio <= 0xffff_ffff * 0xffff_ffff_ffff_ffffu128) by (nonlinear_arith)
            requires cantidad <= 0xffff_ffffu32, precio <= 0xffff_ffff_ffff_ffffu64, cantidad >= 0, precio >= 0;
    }
    let x: u128 = cantidad as u128 * precio as u128;
    let p: u128 = politica as u128 * 1000;
    let r = redondeo_amplio(p, x);
    proof {
        if p > 0 {
            crate::calculo::lema_redondeo_cercano(p as int, x as int);
        }
    }
    r / 1000
}

impl Valuable {
    /// A copy of the item.
    pub fn copia(&self) -> (res: Valuable)
        ensures
            res@ == self@,
    {
        match self {
            Valuable::Prod(a) => Valuable::Prod((a.0, a.1.copia())),
            Valuable::Pes(a) => Valuable::Pes((a.0, a.1.copia())),
            Valuable::Rub(a) => Valuable::Rub((a.0, a.1.copia())),
        }
    }

    /// The price shown for the item while searching.
    pub fn price(&self, politica: &u64) -> (res: Option<u64>)
        ensures
            match precio_spec(self@, *politica as int) {
                Some(p) => res == Some(p as u64),
                None => res is None,
            },
    {
        match self {
            Valuable::Pes(a) => {
                let l = linea_pesable(a.0, a.1.precio_peso, *politica);
                Some(if l > u64::MAX as u128 { u64::MAX } else { l as u64 })
            },
            Valuable::Prod(a) => Some(*a.1.redondear(politica).precio_de_venta()),
            Valuable::Rub(a) => a.1.redondear(politica).monto(),
        }
    }

    /// Whether two items are the same article: the same kind and the same id.
    pub fn eq(&self, other: &Valuable) -> (res: bool)
        ensures
            res == mismo_articulo(self@, other@),
    {
        match (self, other) {
            (Valuable::Pes(a), Valuable::Pes(b)) => a.1.id == b.1.id,
            (Valuable::Prod(a), Valuable::Prod(b)) => a.1.id == b.1.id,
            (Valuable::Rub(a), Valuable::Rub(b)) => a.1.id == b.1.id,
            _ => false,
        }
    }

    /// The description of the item: that of the article sold by weight or of the
    /// department, and for a product its parts in the order the settings choose.
    pub fn descripcion(&self, conf: &Config) -> (res: String)
        ensures
            res@ == descripcion_spec(self@, conf.formato_spec()),
    {
        match self {
            Valuable::Pes(a) => a.1.descripcion(),
            Valuable::Rub(a) => a.1.descripcion(),
            Valuable::Prod(a) => {
                let p = &a.1;
                match conf.formato() {
                    Formato::Mtv => {
                        let mut s = p.marca.clone();
                        empujar(&mut s, ' ');
                        s.append(p.tipo_producto.as_str());
                        empujar(&mut s, ' ');
                        s.append(p.variedad.as_str());
                        empujar(&mut s, ' ');
                        let cant = p.presentacion.cantidad_texto();
                        s.append(cant.as_str());
                        empujar(&mut s, ' ');
                        let u = p.presentacion.get_string();
                        s.append(u.as_str());
                        s
                    },
                    Formato::Tmv => {
                        let mut s = p.tipo_producto.clone();
                        empujar(&mut s, ' ');
                        s.append(p.marca.as_str());
                        empujar(&mut s, ' ');
                        s.append(p.variedad.as_str());
                        s
                    },
                }
            },
        }
    }
}


/// What can be priced by a rounding policy: the value with its price rounded to it.
pub trait ValuableTrait: Sized {
    fn redondear(&self, politica: &u64) -> Self;
}

impl ValuableTrait for Producto {
    /// The product with its sale price rounded to the policy.
    fn redondear(&self, politica: &u64) -> (res: Producto)
        ensures
            res@ == (ProductoV {
                precio_de_venta: saturar(redondeo_spec(*politica as int, self@.precio_de_venta as int)) as u64,
                ..self@
            }),
    {
        let mut p = self.copia();
        p.precio_de_venta = redondeo(politica, self.precio_de_venta);
        p
    }
}

impl ValuableTrait for Rubro {
    /// The department with its amount, if it has one, rounded to the policy.
    fn redondear(&self, politica: &u64) -> (res: Rubro)
        ensures
            res@ == (RubroV {
                monto: match self@.monto {
                    Some(m) => Some(saturar(redondeo_spec(*politica as int, m as int)) as u64),
                    None => None,
                },
                ..self@
            }),
    {
        let mut r = self.copia();
        r.monto = match self.monto {
            Some(m) => Some(redondeo(politica, m)),
            None => None,
        };
        r
    }
}

impl ValuableTrait for Valuable {
    /// The item with its price rounded to the policy; items sold by weight are kept.
    fn redondear(&self, politica: &u64) -> (res: Valuable)
        ensures
            match (self@, res@) {
                (ValuableV::Prod(c, p), ValuableV::Prod(c2, p2)) => c2 == c && p2 == (ProductoV {
                    precio_de_venta: saturar(redondeo_spec(*politica as int, p.precio_de_venta as int)) as u64,
                    ..p
                }),
                (ValuableV::Rub(c, r), ValuableV::Rub(c2, r2)) => c2 == c && r2 == (RubroV {
                    monto: match r.monto {
                        Some(m) => Some(saturar(redondeo_spec(*politica as int, m as int)) as u64),
                        None => None,
                    },
                    ..r
                }),
                (ValuableV::Pes(c, p), ValuableV::Pes(c2, p2)) => c2 == c && p2 == p,
                _ => false,
            },
    {
        match self {
            Valuable::Pes(a) => Valuable::Pes((a.0, a.1.copia())),
            Valuable::Prod(a) => Valuable::Prod((a.0, a.1.redondear(politica))),
            Valuable::Rub(a) => Valuable::Rub((a.0, a.1.redondear(politica))),
        }
    }
}

/// Whether a sale price is the cost plus the margin (in hundredths of a percent), exactly.
pub open spec fn precio_coherente(venta: u64, costo: u64, porcentaje: u64) -> bool {
    venta * 10000 == costo * (10000 + porcentaje)
}

/// An error for a stored item that is not there: its kind and its id in decimal.
pub open spec fn no_encontrado(res: Result<i64, crate::error::AppError>, objeto: Seq<char>, id: i64) -> bool {
    res matches Err(crate::error::AppError::NotFound { objeto: o, instancia }) && o@ == objeto
        && instancia@ == decimal_con_signo(id as int)
}

/// What an edit answers: the id of the row to update when the item is stored and its
/// price holds; else the error.
pub open spec fn edicion(res: Result<i64, crate::error::AppError>, objeto: Seq<char>, id: i64, guardado: bool, coherente: bool) -> bool {
    if !guardado {
        no_encontrado(res, objeto, id)
    } else if !coherente {
        res matches Err(crate::error::AppError::IncorrectError(m)) && m@ == "Cálculo de precio incorrecto"@
    } else {
        res == Ok::<i64, crate::error::AppError>(id)
    }
}

/// The answer to a deletion or an edit of the item `id`: the id of its row when it is
/// stored, else that it was not found.
fn fila_guardada(objeto: &str, id: i64, guardado: bool) -> (res: Result<i64, crate::error::AppError>)
    ensures
        guardado ==> res == Ok::<i64, crate::error::AppError>(id),
        !guardado ==> no_encontrado(res, objeto@, id),
{
    if guardado {
        Ok(id)
    } else {
        Err(crate::error::AppError::NotFound { objeto: objeto.to_string(), instancia: entero_a_texto(id) })
    }
}

/// The sale price checked against the cost and the margin, exactly.
fn verificar_precio(venta: u64, costo: u64, porcentaje: u64) -> (res: bool)
    ensures
        res == precio_coherente(venta, costo, porcentaje),
{
    match (costo as u128).checked_mul(10000 + porcentaje as u128) {
        Some(d) => (venta as u128) * 10000 == d,
        None => false,
    }
}

} // verus!
