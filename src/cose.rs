//! coset's COSE_Sign1, read through trusted items into the library's envelope.

use crate::keymap::Ident;
use crate::verify::Sign1;
use coset::iana::EnumI64;
use coset::{Algorithm, CoseSign1};
use vstd::prelude::*;

verus! {

/// coset's COSE_Sign1, carried through as an opaque value.
#[verifier::external_type_specification]
#[verifier::external_body]
pub struct ExCoseSign1(CoseSign1);

/// Relies on coset's `CoseSign1` fields and `CoseSign1::tbs_data`: the protected
/// algorithm, the number of critical header labels, the `Sig_structure` bytes that were
/// signed (empty external data) and the signature, unchanged.
#[verifier::external_body]
pub(crate) fn sign1_envelope(sign1: &CoseSign1) -> (r: Sign1) {
    let alg = match &sign1.protected.header.alg {
        Some(Algorithm::Assigned(a)) => Some(Ident::Assigned(a.to_i64())),
        Some(Algorithm::PrivateUse(i)) => Some(Ident::Assigned(*i)),
        Some(Algorithm::Text(t)) => Some(Ident::Text(t.clone())),
        None => None,
    };
    let critical = sign1.protected.header.crit.len();
    Sign1 { alg, critical, tbs: sign1.tbs_data(b""), signature: sign1.signature.clone() }
}

} // verus!
