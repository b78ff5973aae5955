use vstd::prelude::*;
use crate::texto::iguales;

verus! {

/// The order in which a product's description names its parts:
/// type, brand, variety (`Tmv`), or brand, type, variety and presentation (`Mtv`).
#[derive(Debug, Clone, Copy, PartialEq, Eq, Structural)]
pub enum Formato {
    Tmv,
    Mtv,
}

/// How names are capitalised.
#[derive(Debug, Clone, Copy, PartialEq, Eq, Structural)]
pub enum Mayusculas {
    Upper,
    Lower,
    Camel,
}

pub open spec fn nombre_formato(f: Formato) -> Seq<char> {
    match f {
        Formato::Tmv => "Tmv"@,
        Formato::Mtv => "Mtv"@,
    }
}

pub open spec fn formato_de_nombre(s: Seq<char>) -> Option<Formato> {
    if s == "Tmv"@ {
        Some(Formato::Tmv)
    } else if s == "Mtv"@ {
        Some(Formato::Mtv)
    } else {
        None
    }
}

pub open spec fn nombre_mayusculas(m: Mayusculas) -> Seq<char> {
    match m {
        Mayusculas::Upper => "Upper"@,
        Mayusculas::Lower => "Lower"@,
        Mayusculas::Camel => "Camel"@,
    }
}

pub open spec fn mayusculas_de_nombre(s: Seq<char>) -> Option<Mayusculas> {
    if s == "Upper"@ {
        Some(Mayusculas::Upper)
    } else if s == "Lower"@ {
        Some(Mayusculas::Lower)
    } else if s == "Camel"@ {
        Some(Mayusculas::Camel)
    } else {
        None
    }
}

impl Formato {
    pub fn to_string(&self) -> (res: String)
        ensures
            res@ == nombre_formato(*self),
    {
        match self {
            Formato::Tmv => "Tmv".to_string(),
            Formato::Mtv => "Mtv".to_string(),
        }
    }

    pub fn desde_texto(s: &str) -> (res: Option<Formato>)
        ensures
            res == formato_de_nombre(s@),
    {
        if iguales(s, "Tmv") {
            Some(Formato::Tmv)
        } else if iguales(s, "Mtv") {
            Some(Formato::Mtv)
        } else {
            None
        }
    }
}

impl Default for Formato {
    fn default() -> (res: Formato)
        ensures
            res == Formato::Tmv,
    {
        Formato::Tmv
    }
}

impl Mayusculas {
    pub fn to_string(&self) -> (res: String)
        ensures
            res@ == nombre_mayusculas(*self),
    {
        match self {
            Mayusculas::Upper => "Upper".to_string(),
            Mayusculas::Lower => "Lower".to_string(),
            Mayusculas::Camel => "Camel".to_string(),
        }
    }

    pub fn desde_texto(s: &str) -> (res: Option<Mayusculas>)
        ensures
            res == mayusculas_de_nombre(s@),
    {
        if iguales(s, "Upper") {
            Some(Mayusculas::Upper)
        } else if iguales(s, "Lower") {
            Some(Mayusculas::Lower)
        } else if iguales(s, "Camel") {
            Some(Mayusculas::Camel)
        } else {
            None
        }
    }
}

impl Default for Mayusculas {
    fn default() -> (res: Mayusculas)
        ensures
            res == Mayusculas::Upper,
    {
        Mayusculas::Upper
    }
}

/// Reading back the stored name of a format or a capitalisation gives it back.
pub proof fn lema_nombres_ida_y_vuelta(f: Formato, m: Mayusculas)
    ensures
        formato_de_nombre(nombre_formato(f)) == Some(f),
        mayusculas_de_nombre(nombre_mayusculas(m)) == Some(m),
{
    reveal_strlit("Tmv");
    reveal_strlit("Mtv");
    reveal_strlit("Upper");
    reveal_strlit("Lower");
    reveal_strlit("Camel");
    if f == Formato::Mtv {
        assert(nombre_formato(f)[0] != "Tmv"@[0]);
    }
    if m == Mayusculas::Lower {
        assert(nombre_mayusculas(m)[0] != "Upper"@[0]);
    }
    if m == Mayusculas::Camel {
        assert(nombre_mayusculas(m)[0] != "Upper"@[0]);
        assert(nombre_mayusculas(m)[0] != "Lower"@[0]);
    }
}

/// The settings of the point of sale. The rounding policy is an amount in cents; prices
/// are rounded to its multiples.
#[derive(Debug, Clone)]
pub struct Config {
    politica_redondeo: u64,
    formato_producto: Formato,
    modo_mayus: Mayusculas,
    cantidad_productos: u8,
    medios_pago: Vec<String>,
}

impl Config {
    pub closed spec fn politica_spec(&self) -> u64 {
        self.politica_redondeo
    }

    pub closed spec fn formato_spec(&self) -> Formato {
        self.formato_producto
    }

    pub closed spec fn mayus_spec(&self) -> Mayusculas {
        self.modo_mayus
    }

    pub closed spec fn cantidad_spec(&self) -> u8 {
        self.cantidad_productos
    }

    /// The names of the means of payment.
    pub closed spec fn medios_spec(&self) -> Seq<Seq<char>> {
        self.medios_pago@.map_values(|m: String| m@)
    }

    /// Builds the settings from their stored form; the format must be "Tmv" or "Mtv"
    /// and the capitalisation "Upper", "Lower" or "Camel".
    pub fn build(
        politica_redondeo: u64,
        formato_producto: &str,
        modo_mayus: &str,
        cantidad_productos: u8,
        medios_pago: Vec<String>,
    ) -> (res: Config)
        requires
            formato_de_nombre(formato_producto@) is Some,
            mayusculas_de_nombre(modo_mayus@) is Some,
        ensures
            res.politica_spec() == politica_redondeo,
            Some(res.formato_spec()) == formato_de_nombre(formato_producto@),
            Some(res.mayus_spec()) == mayusculas_de_nombre(modo_mayus@),
            res.cantidad_spec() == cantidad_productos,
            res.medios_spec() == medios_pago@.map_values(|m: String| m@),
    {
        let formato_producto = match Formato::desde_texto(formato_producto) {
            Some(f) => f,
            None => Formato::Tmv,
        };
        let modo_mayus = match Mayusculas::desde_texto(modo_mayus) {
            Some(m) => m,
            None => Mayusculas::Upper,
        };
        Config { politica_redondeo, formato_producto, modo_mayus, cantidad_productos, medios_pago }
    }

    /// The settings to work with: the stored ones with the stored means of payment, or the
    /// default settings when none are stored.
    pub fn get_or_def(guardada: Option<(crate::db::ConfigDB, Vec<crate::db::MedioPagoDB>)>) -> (res: Config)
        requires
            guardada matches Some((c, _)) ==> formato_de_nombre(c.formato@) is Some && mayusculas_de_nombre(c.mayus@) is Some,
        ensures
            match guardada {
                Some((c, m)) => res.politica_spec() == c.politica
                    && Some(res.formato_spec()) == formato_de_nombre(c.formato@)
                    && Some(res.mayus_spec()) == mayusculas_de_nombre(c.mayus@)
                    && res.cantidad_spec() == c.cantidad
                    && res.medios_spec() == m@.map_values(|x: crate::db::MedioPagoDB| x.medio@),
                None => res.politica_spec() == 1000 && res.formato_spec() == Formato::Tmv
                    && res.mayus_spec() == Mayusculas::Upper && res.cantidad_spec() == 20
                    && res.medios_spec() == seq!["Efectivo"@, "Crédito"@, "Débito"@],
            },
    {
        match guardada {
            Some((c, m)) => crate::db::Mapper::config(c, m),
            None => Config::default(),
        }
    }

    pub fn cantidad_productos(&self) -> (res: &u8)
        ensures
            *res == self.cantidad_spec(),
    {
        &self.cantidad_productos
    }

    pub fn get_cantidad_productos(&self) -> (res: u8)
        ensures
            res == self.cantidad_spec(),
    {
        self.cantidad_productos
    }

    pub fn medios_pago(&self) -> (res: &Vec<String>)
        ensures
            res@.map_values(|m: String| m@) == self.medios_spec(),
    {
        &self.medios_pago
    }

    pub fn get_medios_pago(&self) -> (res: Vec<String>)
        ensures
            res@.map_values(|m: String| m@) == self.medios_spec(),
    {
        self.medios_pago.clone()
    }

    pub fn politica(&self) -> (res: u64)
        ensures
            res == self.politica_spec(),
    {
        self.politica_redondeo
    }

    pub fn formato(&self) -> (res: &Formato)
        ensures
            *res == self.formato_spec(),
    {
        &self.formato_producto
    }

    pub fn modo_mayus(&self) -> (res: Mayusculas)
        ensures
            res == self.mayus_spec(),
    {
        self.modo_mayus
    }
}

impl Default for Config {
    /// A rounding policy of ten pesos, type-brand-variety descriptions, upper case,
    /// twenty products per search, and cash, credit and debit as means of payment.
    fn default() -> (res: Config)
        ensures
            res.politica_spec() == 1000,
            res.formato_spec() == Formato::Tmv,
            res.mayus_spec() == Mayusculas::Upper,
            res.cantidad_spec() == 20,
            res.medios_spec() == seq!["Efectivo"@, "Crédito"@, "Débito"@],
    {
        let mut medios_pago: Vec<String> = Vec::new();
        medios_pago.push("Efectivo".to_string());
        medios_pago.push("Crédito".to_string());
        medios_pago.push("Débito".to_string());
        let res = Config {
            politica_redondeo: 1000,
            formato_producto: Formato::Tmv,
            modo_mayus: Mayusculas::Upper,
            cantidad_productos: 20,
            medios_pago,
        };
        assert(res.medios_spec() =~= seq!["Efectivo"@, "Crédito"@, "Débito"@]);
        res
    }
}

} // verus!
