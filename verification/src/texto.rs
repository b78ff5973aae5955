use vstd::prelude::*;
use vstd::std_specs::iter::IteratorSpec;
use crate::error::ErrorEntero;

verus! {

broadcast use vstd::string::group_string_axioms;

/// Calls `String::push`. The contract claims what std documents: the character is
/// appended at the end of the text.
#[verifier::external_body]
pub(crate) fn empujar(s: &mut String, c: char)
    ensures
        final(s)@ == old(s)@.push(c),
{
    s.push(c);
}

/// The characters of `s`, in order.
pub fn caracteres(s: &str) -> (res: Vec<char>)
    ensures
        res@ == s@,
{
    let mut res: Vec<char> = Vec::new();
    for c in it: s.chars()
        invariant
            res@ == it.seq().take(it.index() as int),
            it.seq() == s@,
    {
        res.push(c);
    }

    res
}

/// The string made of the characters `cs`, in order.
pub fn desde_caracteres(cs: &[char]) -> (res: String)
    ensures
        res@ == cs@,
{
    let mut res = String::new();
    let mut i: usize = 0;
    while i < cs.len()
        invariant
            i <= cs@.len(),
            res@ == cs@.take(i as int),
        decreases cs@.len() - i,
    {
        empujar(&mut res, cs[i]);
        assert(cs@.take(i + 1) == cs@.take(i as int).push(cs@[i as int]));
        i += 1;
    }
    assert(cs@.take(cs@.len() as int) == cs@);
    res
}

/// Whether two texts hold the same characters.
pub fn iguales(a: &str, b: &str) -> (res: bool)
    ensures
        res == (a@ == b@),
{
    let ca = caracteres(a);
    let cb = caracteres(b);
    if ca.len() != cb.len() {
        return false;
    }
    let mut i: usize = 0;
    while i < ca.len()
        invariant
            ca@ == a@,
            cb@ == b@,
            ca@.len() == cb@.len(),
            i <= ca@.len(),
            forall|j: int| 0 <= j < i ==> ca@[j] == cb@[j],
        decreases ca@.len() - i,
    {
        if ca[i] != cb[i] {
            return false;
        }
        i += 1;
    }
    assert(ca@ =~= cb@);
    true
}

/// The pieces of `s` between the occurrences of `sep`, as `str::split` yields them:
/// one more piece than there are separators.
pub open spec fn partes(s: Seq<char>, sep: char) -> Seq<Seq<char>>
    decreases s.len(),
{
    if s.len() == 0 {
        seq![Seq::<char>::empty()]
    } else {
        let p = partes(s.drop_last(), sep);
        if s.last() == sep {
            p.push(Seq::<char>::empty())
        } else {
            p.update(p.len() - 1, p.last().push(s.last()))
        }
    }
}

/// Splitting always yields at least one piece.
pub proof fn lema_partes_no_vacias(s: Seq<char>, sep: char)
    ensures
        partes(s, sep).len() >= 1,
    decreases s.len(),
{
    if s.len() > 0 {
        lema_partes_no_vacias(s.drop_last(), sep);
    }
}

/// The pieces of `s` between the occurrences of `sep`.
pub fn dividir(s: &str, sep: char) -> (res: Vec<String>)
    ensures
        res@.len() == partes(s@, sep).len(),
        forall|i: int| 0 <= i < res@.len() ==> #[trigger] res@[i]@ == partes(s@, sep)[i],
{
    let cs = caracteres(s);
    let mut hechas: Vec<String> = Vec::new();
    let mut actual: Vec<char> = Vec::new();
    let mut i: usize = 0;
    while i < cs.len()
        invariant
            cs@ == s@,
            i <= cs@.len(),
            partes(cs@.take(i as int), sep).len() == hechas@.len() + 1,
            forall|j: int| 0 <= j < hechas@.len() ==> #[trigger] hechas@[j]@ == partes(cs@.take(i as int), sep)[j],
            actual@ == partes(cs@.take(i as int), sep).last(),
        decreases cs@.len() - i,
    {
        proof {
            assert(cs@.take(i + 1).drop_last() == cs@.take(i as int));
        }
        let c = cs[i];
        if c == sep {
            let pieza = desde_caracteres(actual.as_slice());
            hechas.push(pieza);
            actual = Vec::new();
        } else {
            actual.push(c);
        }
        i += 1;
    }
    let ultima = desde_caracteres(actual.as_slice());
    hechas.push(ultima);
    assert(cs@.take(cs@.len() as int) == cs@);
    hechas
}

/// The decimal digit character for `d`.
pub open spec fn digito(d: int) -> char {
    if d == 0 { '0' } else if d == 1 { '1' } else if d == 2 { '2' } else if d == 3 { '3' }
    else if d == 4 { '4' } else if d == 5 { '5' } else if d == 6 { '6' } else if d == 7 { '7' }
    else if d == 8 { '8' } else { '9' }
}

/// The value of a decimal digit character.
pub open spec fn valor_digito(c: char) -> int {
    c as int - '0' as int
}

pub open spec fn es_digito(c: char) -> bool {
    '0' <= c && c <= '9'
}

/// The value of a run of decimal digits.
pub open spec fn valor_digitos(ds: Seq<char>) -> int
    decreases ds.len(),
{
    if ds.len() == 0 { 0 } else { valor_digitos(ds.drop_last()) * 10 + valor_digito(ds.last()) }
}

/// Every character is a decimal digit.
pub open spec fn solo_digitos(ds: Seq<char>) -> bool {
    forall|i: int| 0 <= i < ds.len() ==> #[trigger] es_digito(ds[i])
}

/// Thousandths given by the digits after a decimal point; later digits are dropped.
pub open spec fn fraccion_milesimas(ds: Seq<char>) -> int {
    if ds.len() == 0 {
        0
    } else if ds.len() == 1 {
        valor_digito(ds[0]) * 100
    } else if ds.len() == 2 {
        valor_digito(ds[0]) * 100 + valor_digito(ds[1]) * 10
    } else {
        valor_digito(ds[0]) * 100 + valor_digito(ds[1]) * 10 + valor_digito(ds[2])
    }
}

/// A decimal amount read in thousandths: digits, optionally a point and more digits, with
/// a digit somewhere; it must fit in a `u32`.
pub open spec fn milesimas_spec(s: Seq<char>) -> Option<int> {
    let p = partes(s, '.');
    let ent = p[0];
    let frac = if p.len() == 2 { p[1] } else { Seq::<char>::empty() };
    let v = valor_digitos(ent) * 1000 + fraccion_milesimas(frac);
    if (p.len() == 1 || p.len() == 2) && solo_digitos(ent) && solo_digitos(frac)
        && ent.len() + frac.len() >= 1 && 0 <= v && v <= u32::MAX {
        Some(v)
    } else {
        None
    }
}

proof fn lema_valor_prefijo(ds: Seq<char>, i: int)
    requires
        solo_digitos(ds),
        0 <= i <= ds.len(),
    ensures
        0 <= valor_digitos(ds.take(i)) <= valor_digitos(ds),
    decreases ds.len(),
{
    if ds.len() > 0 {
        assert(solo_digitos(ds.drop_last())) by {
            assert forall|k: int| 0 <= k < ds.drop_last().len() implies #[trigger] es_digito(ds.drop_last()[k]) by {
                assert(ds.drop_last()[k] == ds[k]);
            }
        }
        assert(es_digito(ds[ds.len() - 1]));
        if i < ds.len() {
            assert(ds.drop_last().take(i) =~= ds.take(i));
            lema_valor_prefijo(ds.drop_last(), i);
        } else {
            assert(ds.take(i) =~= ds);
            lema_valor_prefijo(ds.drop_last(), i - 1);
            assert(ds.drop_last().take(i - 1) =~= ds.drop_last());
        }
    } else {
        assert(ds.take(i) =~= ds);
    }
}

/// The value of the digits, when they are all digits and the value is at most `tope`.
fn leer_digitos(ds: &Vec<char>, tope: u64) -> (res: Option<u64>)
    requires
        tope <= u32::MAX,
    ensures
        match res {
            Some(v) => solo_digitos(ds@) && v == valor_digitos(ds@) && v <= tope,
            None => !solo_digitos(ds@) || valor_digitos(ds@) > tope,
        },
{
    let mut acc: u64 = 0;
    let mut i: usize = 0;
    while i < ds.len()
        invariant
            tope <= u32::MAX,
            i <= ds@.len(),
            solo_digitos(ds@.take(i as int)),
            acc == valor_digitos(ds@.take(i as int)),
            acc <= tope,
        decreases ds@.len() - i,
    {
        assert(ds@.take(i + 1).drop_last() =~= ds@.take(i as int));
        let c = ds[i];
        if c < '0' || c > '9' {
            assert(!es_digito(ds@[i as int]));
            return None;
        }
        let d = (c as u32 - '0' as u32) as u64;
        let nuevo = acc * 10 + d;
        assert(solo_digitos(ds@.take(i + 1))) by {
            assert forall|k: int| 0 <= k < i + 1 implies #[trigger] es_digito(ds@.take(i + 1)[k]) by {
                if k < i {
                    assert(ds@.take(i + 1)[k] == ds@.take(i as int)[k]);
                }
            }
        }
        if nuevo > tope {
            proof {
                if solo_digitos(ds@) {
                    lema_valor_prefijo(ds@, i + 1);
                }
            }
            return None;
        }
        acc = nuevo;
        i += 1;
    }
    assert(ds@.take(ds@.len() as int) =~= ds@);
    Some(acc)
}

/// The value of a decimal digit.
fn cifra(c: char) -> (res: u64)
    requires
        es_digito(c),
    ensures
        res == valor_digito(c),
        res <= 9,
{
    (c as u32 - '0' as u32) as u64
}

/// Whether every character is a decimal digit.
fn todos_digitos(ds: &Vec<char>) -> (res: bool)
    ensures
        res == solo_digitos(ds@),
{
    let mut i: usize = 0;
    while i < ds.len()
        invariant
            i <= ds@.len(),
            forall|k: int| 0 <= k < i ==> #[trigger] es_digito(ds@[k]),
        decreases ds@.len() - i,
    {
        if ds[i] < '0' || ds[i] > '9' {
            assert(!es_digito(ds@[i as int]));
            return false;
        }
        assert(es_digito(ds@[i as int]));
        i += 1;
    }
    true
}

/// Reads a decimal amount in thousandths: see `milesimas_spec`.
pub fn parse_milesimas(s: &str) -> (res: Option<u32>)
    ensures
        match milesimas_spec(s@) {
            Some(v) => res == Some(v as u32),
            None => res is None,
        },
{
    let p = dividir(s, '.');
    proof {
        lema_partes_no_vacias(s@, '.');
    }
    if p.len() != 1 && p.len() != 2 {
        return None;
    }
    let ent = caracteres(p[0].as_str());
    let frac = if p.len() == 2 { caracteres(p[1].as_str()) } else { Vec::new() };
    assert(frac@ == (if partes(s@, '.').len() == 2 { partes(s@, '.')[1] } else { Seq::<char>::empty() }));
    if ent.len() == 0 && frac.len() == 0 {
        return None;
    }
    if !todos_digitos(&frac) {
        return None;
    }
    let fr: u64 = if frac.len() == 0 {
        0
    } else if frac.len() == 1 {
        cifra(frac[0]) * 100
    } else if frac.len() == 2 {
        cifra(frac[0]) * 100 + cifra(frac[1]) * 10
    } else {
        cifra(frac[0]) * 100 + cifra(frac[1]) * 10 + cifra(frac[2])
    };
    assert(fr == fraccion_milesimas(frac@));
    let e = match leer_digitos(&ent, 4294967) {
        Some(v) => v,
        None => {
            return None;
        },
    };
    let total: u64 = e * 1000 + fr;
    if total > u32::MAX as u64 {
        return None;
    }
    Some(total as u32)
}

/// The decimal writing of `n`, without leading zeros.
pub open spec fn decimal(n: nat) -> Seq<char>
    decreases n,
{
    if n < 10 {
        seq![digito(n as int)]
    } else {
        decimal(n / 10).push(digito((n % 10) as int))
    }
}

fn caracter_digito(d: u64) -> (c: char)
    requires
        d < 10,
    ensures
        c == digito(d as int),
{
    if d == 0 { '0' } else if d == 1 { '1' } else if d == 2 { '2' } else if d == 3 { '3' }
    else if d == 4 { '4' } else if d == 5 { '5' } else if d == 6 { '6' } else if d == 7 { '7' }
    else if d == 8 { '8' } else { '9' }
}

/// Appends the decimal writing of `n` to `s`.
pub fn escribir_natural(s: &mut String, n: u64)
    ensures
        final(s)@ == old(s)@ + decimal(n as nat),
    decreases n,
{
    if n >= 10 {
        escribir_natural(s, n / 10);
    }
    let c = caracter_digito(n % 10);
    empujar(s, c);
    proof {
        if n >= 10 {
            assert(final(s)@ =~= old(s)@ + decimal(n as nat));
        } else {
            assert(final(s)@ =~= old(s)@ + decimal(n as nat));
        }
    }
}

/// The decimal writing of a signed integer: a minus sign before negative values.
pub open spec fn decimal_con_signo(n: int) -> Seq<char> {
    if n < 0 {
        seq!['-'] + decimal((-n) as nat)
    } else {
        decimal(n as nat)
    }
}

/// The decimal writing of `n`, as `to_string` gives it.
pub fn natural_a_texto(n: u64) -> (res: String)
    ensures
        res@ == decimal(n as nat),
{
    let mut s = String::new();
    escribir_natural(&mut s, n);
    assert(s@ =~= decimal(n as nat));
    s
}

/// The decimal writing of a signed `n`, as `to_string` gives it.
pub fn entero_a_texto(n: i64) -> (res: String)
    ensures
        res@ == decimal_con_signo(n as int),
{
    let mut s = String::new();
    if n < 0 {
        empujar(&mut s, '-');
        let m: u64 = if n == i64::MIN { 9223372036854775808u64 } else { (-n) as u64 };
        escribir_natural(&mut s, m);
    } else {
        escribir_natural(&mut s, n as u64);
    }
    assert(s@ =~= decimal_con_signo(n as int));
    s
}

/// Whether `aguja` occurs in `pajar` as a contiguous run of characters.
pub open spec fn contiene_spec(pajar: Seq<char>, aguja: Seq<char>) -> bool {
    exists|i: int| 0 <= i && i + aguja.len() <= pajar.len() && #[trigger] pajar.subrange(i, i + aguja.len()) == aguja
}

fn coincide_en(pajar: &Vec<char>, aguja: &Vec<char>, i: usize) -> (res: bool)
    requires
        i + aguja@.len() <= pajar@.len(),
    ensures
        res == (pajar@.subrange(i as int, i + aguja@.len()) == aguja@),
{
    let n = pajar.len();
    let mut k: usize = 0;
    while k < aguja.len()
        invariant
            n == pajar@.len(),
            i + aguja@.len() <= pajar@.len(),
            k <= aguja@.len(),
            forall|j: int| 0 <= j < k ==> pajar@[i + j] == aguja@[j],
        decreases aguja@.len() - k,
    {
        if pajar[i + k] != aguja[k] {
            assert(pajar@.subrange(i as int, i + aguja@.len())[k as int] != aguja@[k as int]);
            return false;
        }
        k += 1;
    }
    assert(pajar@.subrange(i as int, i + aguja@.len()) =~= aguja@);
    true
}

/// Whether `aguja` occurs in `pajar`, as `str::contains` answers it.
pub fn contiene(pajar: &str, aguja: &str) -> (res: bool)
    ensures
        res == contiene_spec(pajar@, aguja@),
{
    let p = caracteres(pajar);
    let a = caracteres(aguja);
    if a.len() > p.len() {
        return false;
    }
    let limite = p.len() - a.len();
    let mut i: usize = 0;
    while i <= limite
        invariant
            p@ == pajar@,
            a@ == aguja@,
            a@.len() <= p@.len(),
            limite == p@.len() - a@.len(),
            i <= limite + 1,
            forall|j: int| 0 <= j < i ==> #[trigger] p@.subrange(j, j + a@.len()) != a@,
        decreases limite + 1 - i,
    {
        if coincide_en(&p, &a, i) {
            return true;
        }
        if i == limite {
            return false;
        }
        i += 1;
    }
    false
}

/// Whether every character of a text is ASCII.
pub open spec fn solo_ascii(s: Seq<char>) -> bool {
    forall|i: int| 0 <= i < s.len() ==> (#[trigger] s[i] as u32) < 128
}

/// The lower-case form of a text under the Unicode mapping of Rust's `str::to_lowercase`.
pub uninterp spec fn minusculas(s: Seq<char>) -> Seq<char>;

/// The lower-case form of a text as `str::to_lowercase` gives it: on ASCII text each of
/// `A` to `Z` becomes `a` to `z` and every other character stays; beyond ASCII, the
/// Unicode mapping.
pub open spec fn en_minusculas(s: Seq<char>) -> Seq<char> {
    if solo_ascii(s) { s.map_values(|c: char| minuscula_ascii(c)) } else { minusculas(s) }
}

/// Calls `str::to_lowercase`. The contract names its result: the Unicode lower-case
/// mapping of the characters, which depends on the text alone. On an ASCII text it states
/// the mapping, as std documents it: `A` to `Z` become `a` to `z`, every other character
/// stays; beyond ASCII the mapping is left unsaid.
#[verifier::external_body]
pub(crate) fn a_minusculas(s: &str) -> (res: String)
    ensures
        res@ == minusculas(s@),
        solo_ascii(s@) ==> res@ == s@.map_values(|c: char| minuscula_ascii(c)),
{
    s.to_lowercase()
}

/// The ASCII upper-case form of a character; other characters are kept.
pub open spec fn mayuscula_ascii(c: char) -> char {
    if 'a' <= c && c <= 'z' { ((c as u32) - 32) as char } else { c }
}

/// The ASCII lower-case form of a character; other characters are kept.
pub open spec fn minuscula_ascii(c: char) -> char {
    if 'A' <= c && c <= 'Z' { ((c as u32) + 32) as char } else { c }
}

pub fn a_mayuscula_ascii(c: char) -> (r: char)
    ensures
        r == mayuscula_ascii(c),
{
    if 'a' <= c && c <= 'z' {
        ((c as u8) - 32) as char
    } else {
        c
    }
}

pub fn a_minuscula_ascii(c: char) -> (r: char)
    ensures
        r == minuscula_ascii(c),
{
    if 'A' <= c && c <= 'Z' {
        ((c as u8) + 32) as char
    } else {
        c
    }
}

/// Whether the character at `k` starts a word: it is the first, or follows a space.
pub open spec fn inicio_de_palabra(s: Seq<char>, k: int) -> bool {
    k == 0 || s[k - 1] == ' '
}

/// The text with the first letter of each word in ASCII upper case.
pub open spec fn camalizado(s: Seq<char>) -> Seq<char> {
    Seq::new(s.len(), |k: int| if inicio_de_palabra(s, k) { mayuscula_ascii(s[k]) } else { s[k] })
}

/// Every word starts with an ASCII character: the first character of a word is replaced
/// in place, byte for byte.
pub open spec fn palabras_ascii(s: Seq<char>) -> bool {
    forall|k: int| 0 <= k < s.len() && #[trigger] inicio_de_palabra(s, k) ==> (s[k] as u32) < 128
}

/// Puts the first letter of each word in ASCII upper case.
pub fn camalize(data: &mut String)
    requires
        palabras_ascii(old(data)@),
    ensures
        final(data)@ == camalizado(old(data)@),
{
    let cs = caracteres(data.as_str());
    let mut nuevos: Vec<char> = Vec::new();
    let mut es = true;
    let mut i: usize = 0;
    while i < cs.len()
        invariant
            cs@ == old(data)@,
            i <= cs@.len(),
            nuevos@ == camalizado(cs@).take(i as int),
            es == inicio_de_palabra(cs@, i as int),
        decreases cs@.len() - i,
    {
        let a = cs[i];
        if es {
            nuevos.push(a_mayuscula_ascii(a));
        } else {
            nuevos.push(a);
        }
        proof {
            assert(nuevos@ =~= camalizado(cs@).take(i + 1));
        }
        es = a == ' ';
        i += 1;
    }
    assert(camalizado(cs@).take(cs@.len() as int) =~= camalizado(cs@));
    *data = desde_caracteres(nuevos.as_slice());
}

/// Whether two texts are equal once ASCII letters are compared without case,
/// as `str::eq_ignore_ascii_case` answers it.
pub open spec fn iguales_sin_caso_spec(a: Seq<char>, b: Seq<char>) -> bool {
    a.len() == b.len() && forall|i: int| 0 <= i < a.len() ==> minuscula_ascii(#[trigger] a[i]) == minuscula_ascii(b[i])
}

pub fn iguales_sin_caso(a: &str, b: &str) -> (res: bool)
    ensures
        res == iguales_sin_caso_spec(a@, b@),
{
    let ca = caracteres(a);
    let cb = caracteres(b);
    if ca.len() != cb.len() {
        return false;
    }
    let mut i: usize = 0;
    while i < ca.len()
        invariant
            ca@ == a@,
            cb@ == b@,
            ca@.len() == cb@.len(),
            i <= ca@.len(),
            forall|j: int| 0 <= j < i ==> minuscula_ascii(#[trigger] ca@[j]) == minuscula_ascii(cb@[j]),
        decreases ca@.len() - i,
    {
        if a_minuscula_ascii(ca[i]) != a_minuscula_ascii(cb[i]) {
            return false;
        }
        i += 1;
    }
    true
}

/// Reads the digits `digs` after an accumulated value, as std's integer parsing does:
/// the first character that is not a digit, or the first digit that takes the value
/// out of `[minimo, maximo]`, decides the error.
pub open spec fn escanear(digs: Seq<char>, acc: int, negativo: bool, minimo: int, maximo: int) -> Result<int, ErrorEntero>
    decreases digs.len(),
{
    if digs.len() == 0 {
        Ok(acc)
    } else if !es_digito(digs[0]) {
        Err(ErrorEntero::DigitoInvalido)
    } else {
        let nuevo = if negativo { acc * 10 - valor_digito(digs[0]) } else { acc * 10 + valor_digito(digs[0]) };
        if nuevo > maximo {
            Err(ErrorEntero::DemasiadoGrande)
        } else if nuevo < minimo {
            Err(ErrorEntero::DemasiadoChico)
        } else {
            escanear(digs.drop_first(), nuevo, negativo, minimo, maximo)
        }
    }
}

/// The result of `str::parse::<i64>`: an optional sign, then at least one decimal digit.
pub open spec fn entero_spec(s: Seq<char>) -> Result<int, ErrorEntero> {
    if s.len() == 0 {
        Err(ErrorEntero::Vacio)
    } else if s[0] == '+' || s[0] == '-' {
        if s.len() == 1 {
            Err(ErrorEntero::DigitoInvalido)
        } else {
            escanear(s.drop_first(), 0, s[0] == '-', i64::MIN as int, i64::MAX as int)
        }
    } else {
        escanear(s, 0, false, i64::MIN as int, i64::MAX as int)
    }
}

/// The result of `str::parse::<u64>`: an optional plus sign, then at least one decimal digit.
pub open spec fn natural_spec(s: Seq<char>) -> Result<int, ErrorEntero> {
    if s.len() == 0 {
        Err(ErrorEntero::Vacio)
    } else if s[0] == '+' {
        if s.len() == 1 {
            Err(ErrorEntero::DigitoInvalido)
        } else {
            escanear(s.drop_first(), 0, false, 0, u64::MAX as int)
        }
    } else {
        escanear(s, 0, false, 0, u64::MAX as int)
    }
}

proof fn lema_escanear_rango(digs: Seq<char>, acc: int, negativo: bool, minimo: int, maximo: int)
    requires
        minimo <= acc <= maximo,
    ensures
        escanear(digs, acc, negativo, minimo, maximo) matches Ok(v) ==> minimo <= v <= maximo,
    decreases digs.len(),
{
    if digs.len() > 0 && es_digito(digs[0]) {
        let nuevo = if negativo { acc * 10 - valor_digito(digs[0]) } else { acc * 10 + valor_digito(digs[0]) };
        if minimo <= nuevo <= maximo {
            lema_escanear_rango(digs.drop_first(), nuevo, negativo, minimo, maximo);
        }
    }
}

fn escanear_exec(cs: &Vec<char>, inicio: usize, negativo: bool, minimo: i128, maximo: i128) -> (res: Result<i128, ErrorEntero>)
    requires
        inicio <= cs@.len(),
        minimo <= 0 <= maximo,
        minimo >= i64::MIN,
        maximo <= u64::MAX,
    ensures
        match escanear(cs@.skip(inicio as int), 0, negativo, minimo as int, maximo as int) {
            Ok(v) => res == Ok::<i128, ErrorEntero>(v as i128),
            Err(e) => res == Err::<i128, ErrorEntero>(e),
        },
        res matches Ok(v) ==> minimo <= v <= maximo,
{
    let mut acc: i128 = 0;
    let mut i: usize = inicio;
    proof {
        lema_escanear_rango(cs@.skip(inicio as int), 0, negativo, minimo as int, maximo as int);
    }
    while i < cs.len()
        invariant
            inicio <= i <= cs@.len(),
            minimo <= acc <= maximo,
            minimo <= 0 <= maximo,
            minimo >= i64::MIN,
            maximo <= u64::MAX,
            escanear(cs@.skip(inicio as int), 0, negativo, minimo as int, maximo as int)
                == escanear(cs@.skip(i as int), acc as int, negativo, minimo as int, maximo as int),
        decreases cs@.len() - i,
    {
        let c = cs[i];
        assert(cs@.skip(i as int)[0] == c);
        assert(cs@.skip(i as int).drop_first() == cs@.skip(i + 1));
        if !('0' <= c && c <= '9') {
            return Err(ErrorEntero::DigitoInvalido);
        }
        let d = (c as u32 - '0' as u32) as i128;
        let nuevo = if negativo { acc * 10 - d } else { acc * 10 + d };
        if nuevo > maximo {
            return Err(ErrorEntero::DemasiadoGrande);
        }
        if nuevo < minimo {
            return Err(ErrorEntero::DemasiadoChico);
        }
        acc = nuevo;
        i += 1;
    }
    assert(cs@.skip(i as int).len() == 0);
    Ok(acc)
}

pub(crate) proof fn lema_digito(d: int)
    requires
        0 <= d < 10,
    ensures
        es_digito(digito(d)),
        valor_digito(digito(d)) == d,
        digito(d) != '-',
        digito(d) != '+',
{
}

proof fn lema_decimal_digitos(n: nat)
    ensures
        decimal(n).len() >= 1,
        forall|i: int| 0 <= i < decimal(n).len() ==> #[trigger] es_digito(decimal(n)[i]),
    decreases n,
{
    if n < 10 {
        lema_digito(n as int);
    } else {
        lema_decimal_digitos(n / 10);
        lema_digito((n % 10) as int);
        assert forall|i: int| 0 <= i < decimal(n).len() implies #[trigger] es_digito(decimal(n)[i]) by {
            if i < decimal(n / 10).len() {
                assert(decimal(n)[i] == decimal(n / 10)[i]);
            }
        }
    }
}

/// Reading one more digit at the end continues from where the digits before left off.
proof fn lema_escanear_al_final(ds: Seq<char>, d: char, acc: int, negativo: bool, minimo: int, maximo: int)
    requires
        es_digito(d),
    ensures
        escanear(ds.push(d), acc, negativo, minimo, maximo) == match escanear(ds, acc, negativo, minimo, maximo) {
            Ok(x) => {
                let y = if negativo { x * 10 - valor_digito(d) } else { x * 10 + valor_digito(d) };
                if y > maximo {
                    Err(ErrorEntero::DemasiadoGrande)
                } else if y < minimo {
                    Err(ErrorEntero::DemasiadoChico)
                } else {
                    Ok(y)
                }
            },
            Err(e) => Err(e),
        },
    decreases ds.len(),
{
    if ds.len() == 0 {
        let y = if negativo { acc * 10 - valor_digito(d) } else { acc * 10 + valor_digito(d) };
        assert(ds.push(d)[0] == d);
        assert(ds.push(d).drop_first() =~= Seq::<char>::empty());
        assert(escanear(Seq::<char>::empty(), y, negativo, minimo, maximo) == Ok::<int, ErrorEntero>(y));
        assert(escanear(ds, acc, negativo, minimo, maximo) == Ok::<int, ErrorEntero>(acc));
    } else {
        assert(ds.push(d)[0] == ds[0]);
        assert(ds.push(d).drop_first() =~= ds.drop_first().push(d));
        if es_digito(ds[0]) {
            let nuevo = if negativo { acc * 10 - valor_digito(ds[0]) } else { acc * 10 + valor_digito(ds[0]) };
            lema_escanear_al_final(ds.drop_first(), d, nuevo, negativo, minimo, maximo);
        }
    }
}

proof fn lema_escanear_decimal(n: nat, negativo: bool, minimo: int, maximo: int)
    requires
        minimo <= 0 <= maximo,
        !negativo ==> n <= maximo,
        negativo ==> -n >= minimo,
    ensures
        escanear(decimal(n), 0, negativo, minimo, maximo) == Ok::<int, ErrorEntero>(if negativo { -n } else { n as int }),
    decreases n,
{
    if n < 10 {
        lema_digito(n as int);
        assert(decimal(n) =~= Seq::<char>::empty().push(digito(n as int)));
        lema_escanear_al_final(Seq::<char>::empty(), digito(n as int), 0, negativo, minimo, maximo);
    } else {
        lema_escanear_decimal(n / 10, negativo, minimo, maximo);
        lema_digito((n % 10) as int);
        lema_escanear_al_final(decimal(n / 10), digito((n % 10) as int), 0, negativo, minimo, maximo);
    }
}

pub(crate) proof fn lema_partes_sin_separador(a: Seq<char>, sep: char)
    requires
        !a.contains(sep),
    ensures
        partes(a, sep) == seq![a],
    decreases a.len(),
{
    if a.len() > 0 {
        assert(!a.drop_last().contains(sep)) by {
            if a.drop_last().contains(sep) {
                let k = choose|k: int| 0 <= k < a.drop_last().len() && a.drop_last()[k] == sep;
                assert(a[k] == sep);
            }
        }
        lema_partes_sin_separador(a.drop_last(), sep);
        assert(a.last() != sep) by {
            if a.last() == sep {
                assert(a[a.len() - 1] == sep);
            }
        }
        assert(a.drop_last().push(a.last()) =~= a);
        assert(seq![a.drop_last()].update(0, a) =~= seq![a]);
    } else {
        assert(a =~= Seq::<char>::empty());
    }
}

pub(crate) proof fn lema_partes_dos(a: Seq<char>, b: Seq<char>, sep: char)
    requires
        !a.contains(sep),
        !b.contains(sep),
    ensures
        partes(a + seq![sep] + b, sep) == seq![a, b],
    decreases b.len(),
{
    if b.len() == 0 {
        lema_partes_sin_separador(a, sep);
        assert(a + seq![sep] + b =~= a.push(sep));
        assert(a.push(sep).drop_last() =~= a);
        assert(b =~= Seq::<char>::empty());
        assert(seq![a].push(Seq::<char>::empty()) =~= seq![a, b]);
    } else {
        let b2 = b.drop_last();
        assert(!b2.contains(sep)) by {
            if b2.contains(sep) {
                let k = choose|k: int| 0 <= k < b2.len() && b2[k] == sep;
                assert(b[k] == sep);
            }
        }
        lema_partes_dos(a, b2, sep);
        assert(b.last() != sep) by {
            if b.last() == sep {
                assert(b[b.len() - 1] == sep);
            }
        }
        assert((a + seq![sep] + b).drop_last() =~= a + seq![sep] + b2);
        assert((a + seq![sep] + b).last() == b.last());
        assert(b2.push(b.last()) =~= b);
        assert(seq![a, b2].update(1, b) =~= seq![a, b]);
    }
}

pub(crate) proof fn lema_valor_decimal(n: nat)
    ensures
        valor_digitos(decimal(n)) == n,
        solo_digitos(decimal(n)),
        !decimal(n).contains('.'),
    decreases n,
{
    lema_decimal_digitos(n);
    if n < 10 {
        lema_digito(n as int);
        assert(decimal(n).drop_last() =~= Seq::<char>::empty());
        assert(decimal(n).last() == digito(n as int));
        assert(valor_digitos(Seq::<char>::empty()) == 0);
    } else {
        lema_valor_decimal(n / 10);
        lema_digito((n % 10) as int);
        assert(decimal(n).drop_last() =~= decimal(n / 10));
        assert(decimal(n).last() == digito((n % 10) as int));
    }
    if decimal(n).contains('.') {
        let k = choose|k: int| 0 <= k < decimal(n).len() && decimal(n)[k] == '.';
        assert(es_digito(decimal(n)[k]));
    }
}

/// Writing an integer and reading it back gives it back.
pub proof fn lema_entero_ida_y_vuelta(n: i64)
    ensures
        entero_spec(decimal_con_signo(n as int)) == Ok::<int, ErrorEntero>(n as int),
{
    if n < 0 {
        let m = (-(n as int)) as nat;
        lema_escanear_decimal(m, true, i64::MIN as int, i64::MAX as int);
        lema_decimal_digitos(m);
        assert((seq!['-'] + decimal(m)).drop_first() =~= decimal(m));
    } else {
        lema_escanear_decimal(n as nat, false, i64::MIN as int, i64::MAX as int);
        lema_decimal_digitos(n as nat);
        assert(es_digito(decimal(n as nat)[0]));
    }
}

/// Writing a natural number and reading it back gives it back.
pub proof fn lema_natural_ida_y_vuelta(n: u64)
    ensures
        natural_spec(decimal(n as nat)) == Ok::<int, ErrorEntero>(n as int),
{
    lema_escanear_decimal(n as nat, false, 0, u64::MAX as int);
    lema_decimal_digitos(n as nat);
    assert(es_digito(decimal(n as nat)[0]));
}

/// Parses a signed decimal integer, as `str::parse::<i64>` does.
pub fn parse_entero(s: &str) -> (res: Result<i64, ErrorEntero>)
    ensures
        match entero_spec(s@) {
            Ok(v) => res == Ok::<i64, ErrorEntero>(v as i64),
            Err(e) => res == Err::<i64, ErrorEntero>(e),
        },
        res matches Ok(v) ==> entero_spec(s@) == Ok::<int, ErrorEntero>(v as int),
{
    let cs = caracteres(s);
    if cs.len() == 0 {
        return Err(ErrorEntero::Vacio);
    }
    let r = if cs[0] == '+' || cs[0] == '-' {
        if cs.len() == 1 {
            return Err(ErrorEntero::DigitoInvalido);
        }
        assert(cs@.skip(1) == cs@.drop_first());
        assert(entero_spec(s@) == escanear(cs@.skip(1), 0, cs@[0] == '-', i64::MIN as int, i64::MAX as int));
        escanear_exec(&cs, 1, cs[0] == '-', i64::MIN as i128, i64::MAX as i128)
    } else {
        assert(cs@.skip(0) == cs@);
        escanear_exec(&cs, 0, false, i64::MIN as i128, i64::MAX as i128)
    };
    proof {
        lema_escanear_rango(cs@.skip(1), 0, cs@[0] == '-', i64::MIN as int, i64::MAX as int);
        lema_escanear_rango(cs@, 0, false, i64::MIN as int, i64::MAX as int);
    }
    assert(match entero_spec(s@) {
        Ok(v) => r == Ok::<i128, ErrorEntero>(v as i128),
        Err(e) => r == Err::<i128, ErrorEntero>(e),
    });
    match r {
        Ok(v) => Ok(v as i64),
        Err(e) => Err(e),
    }
}

/// Parses an unsigned decimal integer, as `str::parse::<u64>` does.
pub fn parse_natural(s: &str) -> (res: Result<u64, ErrorEntero>)
    ensures
        match natural_spec(s@) {
            Ok(v) => res == Ok::<u64, ErrorEntero>(v as u64),
            Err(e) => res == Err::<u64, ErrorEntero>(e),
        },
        res matches Ok(v) ==> natural_spec(s@) == Ok::<int, ErrorEntero>(v as int),
{
    let cs = caracteres(s);
    if cs.len() == 0 {
        return Err(ErrorEntero::Vacio);
    }
    let r = if cs[0] == '+' {
        if cs.len() == 1 {
            return Err(ErrorEntero::DigitoInvalido);
        }
        assert(cs@.skip(1) == cs@.drop_first());
        escanear_exec(&cs, 1, false, 0, u64::MAX as i128)
    } else {
        assert(cs@.skip(0) == cs@);
        escanear_exec(&cs, 0, false, 0, u64::MAX as i128)
    };
    proof {
        lema_escanear_rango(cs@.skip(1), 0, false, 0, u64::MAX as int);
        lema_escanear_rango(cs@, 0, false, 0, u64::MAX as int);
    }
    assert(match natural_spec(s@) {
        Ok(v) => r == Ok::<i128, ErrorEntero>(v as i128),
        Err(e) => r == Err::<i128, ErrorEntero>(e),
    });
    match r {
        Ok(v) => Ok(v as u64),
        Err(e) => Err(e),
    }
}

} // verus!
