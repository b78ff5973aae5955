use vstd::prelude::*;

verus! {

/// Why a text is not an integer, as std's `IntErrorKind` tells it.
#[derive(Debug, Clone, Copy, PartialEq, Eq, Structural)]
pub enum ErrorEntero {
    Vacio,
    DigitoInvalido,
    DemasiadoGrande,
    DemasiadoChico,
}

impl ErrorEntero {
    /// The message that std's `ParseIntError` prints for this kind.
    pub fn mensaje(&self) -> (res: String)
        ensures
            res@ == mensaje_entero(*self),
    {
        match self {
            ErrorEntero::Vacio => "cannot parse integer from empty string".to_string(),
            ErrorEntero::DigitoInvalido => "invalid digit found in string".to_string(),
            ErrorEntero::DemasiadoGrande => "number too large to fit in target type".to_string(),
            ErrorEntero::DemasiadoChico => "number too small to fit in target type".to_string(),
        }
    }
}

pub open spec fn mensaje_entero(e: ErrorEntero) -> Seq<char> {
    match e {
        ErrorEntero::Vacio => "cannot parse integer from empty string"@,
        ErrorEntero::DigitoInvalido => "invalid digit found in string"@,
        ErrorEntero::DemasiadoGrande => "number too large to fit in target type"@,
        ErrorEntero::DemasiadoChico => "number too small to fit in target type"@,
    }
}

/// The errors of the point of sale.
#[derive(Debug, Clone)]
pub enum AppError {
    /// A payment other than cash exceeds what is left to pay.
    AmountError { a_pagar: i128, pagado: u64 },
    /// There is no parked sale at the index asked for.
    SaleSelection,
    /// The unit of a presentation is not one of Gr, Un, Lt, Ml, CC and Kg.
    SizeSelection(String),
    ExistingProviderError(String),
    ProductNotFound(String),
    NotFound { objeto: String, instancia: String },
    ExistingError { objeto: String, instancia: String },
    IncorrectError(String),
    InicializationError(String),
    /// A search filter holds more than one `*`.
    ParseError,
    /// A quantity is not a decimal amount.
    ParseFloatError,
    ParseIntError(ErrorEntero),
}

} // verus!
