use vstd::prelude::*;
use std::collections::hash_map::DefaultHasher;
use std::hash::{Hash, Hasher};
use vstd::std_specs::hash::DefaultHasherAdditionalSpecFns;

verus! {

/// The writes that `<str as Hash>::hash` makes into a hasher whose writes so far are
/// `escrito`: what it appends depends on the text alone.
pub uninterp spec fn escritura_texto(escrito: Seq<Seq<u8>>, s: Seq<char>) -> Seq<Seq<u8>>;

/// Calls `<str as Hash>::hash`. The contract names the writes it makes: they depend only
/// on the writes before and on the text; which bytes they are is left unsaid.
#[verifier::external_body]
fn hashear_texto(s: &str, h: &mut DefaultHasher)
    ensures
        final(h)@ == escritura_texto(old(h)@, s@),
{
    s.hash(h);
}

/// The hash a password is stored under: std's `DefaultHasher` over the text, as a signed
/// integer.
pub open spec fn hash_de(pass: Seq<char>) -> i64 {
    DefaultHasher::spec_finish(escritura_texto(Seq::empty(), pass)) as i64
}

/// The hash a password is stored and compared under.
pub fn get_hash(pass: &str) -> (res: i64)
    ensures
        res == hash_de(pass@),
{
    let mut h = DefaultHasher::new();
    hashear_texto(pass, &mut h);
    h.finish() as i64
}

} // verus!
