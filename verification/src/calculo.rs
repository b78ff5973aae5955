use vstd::prelude::*;

verus! {

/// The amount `numero` rounded to the nearest multiple of `politica`; a remainder of
/// exactly half the policy, or more, rounds up. A policy of zero leaves the amount as it is.
pub open spec fn redondeo_spec(politica: int, numero: int) -> int {
    if politica == 0 {
        numero
    } else {
        let dif = numero % politica;
        if dif == 0 {
            numero
        } else if 2 * dif < politica {
            numero - dif
        } else {
            numero + politica - dif
        }
    }
}

/// Rounding on wide integers, shared by the totals of a sale.
pub(crate) fn redondeo_amplio(politica: u128, numero: u128) -> (res: u128)
    requires
        numero + politica <= u128::MAX,
    ensures
        res == redondeo_spec(politica as int, numero as int),
{
    if politica == 0 {
        return numero;
    }
    let dif = numero % politica;
    proof {
        vstd::arithmetic::div_mod::lemma_fundamental_div_mod(numero as int, politica as int);
        vstd::arithmetic::div_mod::lemma_mod_bound(numero as int, politica as int);
        assert(numero / politica >= 0) by (nonlinear_arith) requires numero >= 0, politica > 0;
        assert(politica * (numero / politica) >= 0) by (nonlinear_arith) requires numero / politica >= 0, politica > 0;
    }
    if dif != 0 {
        if dif < politica - dif {
            numero - dif
        } else {
            numero + politica - dif
        }
    } else {
        numero
    }
}

/// An amount held in `u64` cents: amounts beyond its range are held at its maximum.
pub open spec fn saturar(x: int) -> int {
    if x > u64::MAX { u64::MAX as int } else { x }
}

/// Rounds an amount to the nearest multiple of the rounding policy. A result beyond
/// the range of `u64` is held at `u64::MAX`.
pub fn redondeo(politica: &u64, numero: u64) -> (res: u64)
    ensures
        res == saturar(redondeo_spec(*politica as int, numero as int)),
{
    let r = redondeo_amplio(*politica as u128, numero as u128);
    proof {
        if *politica > 0 {
            lema_redondeo_cercano(*politica as int, numero as int);
        }
    }
    if r > u64::MAX as u128 { u64::MAX } else { r as u64 }
}

/// A rounded amount is a multiple of the policy, lies within half a policy of the
/// amount, and never exceeds the amount by a whole policy.
pub proof fn lema_redondeo_cercano(politica: int, numero: int)
    requires
        politica > 0,
        numero >= 0,
    ensures
        redondeo_spec(politica, numero) % politica == 0,
        2 * (redondeo_spec(politica, numero) - numero) <= politica,
        2 * (numero - redondeo_spec(politica, numero)) < politica,
        redondeo_spec(politica, numero) >= 0,
        redondeo_spec(politica, numero) < numero + politica,
{
    let dif = numero % politica;
    vstd::arithmetic::div_mod::lemma_fundamental_div_mod(numero, politica);
    vstd::arithmetic::div_mod::lemma_mod_bound(numero, politica);
    if dif == 0 {
    } else if 2 * dif < politica {
        assert((numero - dif) % politica == 0) by {
            vstd::arithmetic::div_mod::lemma_mod_multiples_basic(numero / politica, politica);
            assert(numero - dif == (numero / politica) * politica) by (nonlinear_arith)
                requires numero == politica * (numero / politica) + dif;
        }
    } else {
        assert((numero + politica - dif) % politica == 0) by {
            vstd::arithmetic::div_mod::lemma_mod_multiples_basic(numero / politica + 1, politica);
            assert(numero + politica - dif == (numero / politica + 1) * politica) by (nonlinear_arith)
                requires numero == politica * (numero / politica) + dif;
        }
    }
}

/// Rounding an amount that already follows the policy leaves it unchanged, so rounding
/// twice gives the same as rounding once.
pub proof fn lema_redondeo_idempotente(politica: int, numero: int)
    requires
        politica > 0,
        numero >= 0,
    ensures
        redondeo_spec(politica, redondeo_spec(politica, numero)) == redondeo_spec(politica, numero),
{
    lema_redondeo_cercano(politica, numero);
}

} // verus!
