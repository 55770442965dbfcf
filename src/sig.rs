//! Translation of ECDSA signatures between the fixed-width `r || s` form of COSE and DER.

use crate::coord::{adjust_coord, adjusted, be_value};
use crate::kind::{coord_len_spec, ec_coord_len, EcKind};
use crate::provider::{ecdsa_der, ecdsa_der_parses, ecdsa_der_r, ecdsa_der_s, ecdsa_sig_components, ecdsa_sig_to_der};
use vstd::prelude::*;

verus! {

/// Why a signature could not be brought from one form to the other.
#[derive(Clone, Copy, Debug, PartialEq, Eq, Structural)]
pub enum FormatError {
    /// The raw signature is not twice the coordinate width of the curve.
    WrongLength,
    /// A component of the DER signature is wider than the curve's coordinate width.
    ComponentTooLarge,
    /// The provider could not parse the DER signature.
    Provider,
}

/// The DER form of a raw COSE signature on curve `kind`: the DER encoding of its two
/// halves, or `WrongLength` where it is not twice the coordinate width.
pub open spec fn raw_to_der(kind: EcKind, sig: Seq<u8>) -> Result<Seq<u8>, FormatError> {
    let len = coord_len_spec(kind);
    if sig.len() != 2 * len {
        Err(FormatError::WrongLength)
    } else {
        Ok(ecdsa_der(sig.subrange(0, len as int), sig.subrange(len as int, 2 * len as int)))
    }
}

/// The raw COSE form of a DER signature on curve `kind`: both components brought to the
/// coordinate width and concatenated.
pub open spec fn der_to_raw(kind: EcKind, der: Seq<u8>) -> Result<Seq<u8>, FormatError> {
    let len = coord_len_spec(kind);
    let r = adjusted(ecdsa_der_r(der), len);
    let s = adjusted(ecdsa_der_s(der), len);
    if !ecdsa_der_parses(der) {
        Err(FormatError::Provider)
    } else if r.len() != len || s.len() != len {
        Err(FormatError::ComponentTooLarge)
    } else {
        Ok(r + s)
    }
}

/// Converts a COSE ECDSA signature (`r || s`, each component `coord_len` bytes wide) into
/// the DER form that the provider verifies.
pub fn ec_cose_signature_to_der(kind: EcKind, signature: &[u8]) -> (res: Result<Vec<u8>, FormatError>)
    ensures
        res matches Ok(d) ==> raw_to_der(kind, signature@) == Ok::<Seq<u8>, FormatError>(d@),
        res matches Err(e) ==> raw_to_der(kind, signature@) == Err::<Seq<u8>, FormatError>(e),
{
    let coord_len = ec_coord_len(kind);
    if signature.len() != coord_len * 2 {
        return Err(FormatError::WrongLength);
    }
    let r = vstd::slice::slice_subrange(signature, 0, coord_len);
    let s = vstd::slice::slice_subrange(signature, coord_len, 2 * coord_len);
    match ecdsa_sig_to_der(r, s) {
        Ok(der) => Ok(der),
        Err(_) => Err(FormatError::Provider),
    }
}

/// Converts a DER ECDSA signature into the COSE form: `r || s`, each component brought to
/// the curve's coordinate width.
pub fn ec_der_signature_to_cose(kind: EcKind, der: &[u8]) -> (res: Result<Vec<u8>, FormatError>)
    ensures
        res matches Ok(v) ==> der_to_raw(kind, der@) == Ok::<Seq<u8>, FormatError>(v@),
        res matches Err(e) ==> der_to_raw(kind, der@) == Err::<Seq<u8>, FormatError>(e),
{
    let coord_len = ec_coord_len(kind);
    let (r, s) = match ecdsa_sig_components(der) {
        Ok(parts) => parts,
        Err(_) => return Err(FormatError::Provider),
    };
    let mut r = adjust_coord(r, coord_len);
    let mut s = adjust_coord(s, coord_len);
    if r.len() != coord_len || s.len() != coord_len {
        return Err(FormatError::ComponentTooLarge);
    }
    let ghost (r0, s0) = (r@, s@);
    r.append(&mut s);
    assert(r@ =~= r0 + s0);
    Ok(r)
}

/// Signature form round trip: a DER signature brought to the raw COSE form and back is the
/// DER encoding of two integers equal to the original signature's `r` and `s`.
pub proof fn lemma_signature_round_trip(kind: EcKind, der: Seq<u8>)
    ensures
        der_to_raw(kind, der) matches Ok(raw) ==> {
            let len = coord_len_spec(kind);
            let r = adjusted(ecdsa_der_r(der), len);
            let s = adjusted(ecdsa_der_s(der), len);
            &&& raw_to_der(kind, raw) == Ok::<Seq<u8>, FormatError>(ecdsa_der(r, s))
            &&& be_value(r) == be_value(ecdsa_der_r(der))
            &&& be_value(s) == be_value(ecdsa_der_s(der))
        },
{
    let len = coord_len_spec(kind);
    let r = adjusted(ecdsa_der_r(der), len);
    let s = adjusted(ecdsa_der_s(der), len);
    crate::coord::lemma_adjusted(ecdsa_der_r(der), len);
    crate::coord::lemma_adjusted(ecdsa_der_s(der), len);
    if der_to_raw(kind, der) is Ok {
        let raw = r + s;
        assert(raw.subrange(0, len as int) =~= r);
        assert(raw.subrange(len as int, 2 * len as int) =~= s);
    }
}

} // verus!
