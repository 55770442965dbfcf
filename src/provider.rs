//! The cryptography provider: openssl, reached through trusted items only.

use openssl::bn::{BigNum, BigNumContext};
use openssl::ec::{EcGroup, EcKey};
use openssl::ecdsa::EcdsaSig;
use openssl::error::ErrorStack;
use openssl::hash::MessageDigest;
use openssl::nid::Nid;
use openssl::pkey::{Id, PKey, Public};
use openssl::sign::Verifier;
use crate::key::PublicKey;
use crate::keymap::KeyModel;
use crate::kind::{EcKind, Kind};
use vstd::prelude::*;

verus! {

/// openssl's error stack, carried through as an opaque value.
#[verifier::external_type_specification]
#[verifier::external_body]
pub struct ExErrorStack(ErrorStack);

/// An openssl key handle, carried through as an opaque value.
#[verifier::external_type_specification]
#[verifier::external_body]
#[verifier::reject_recursive_types(T)]
pub struct ExPKey<T>(PKey<T>);

/// openssl's marker for keys that hold public material only.
#[verifier::external_type_specification]
#[verifier::external_body]
pub struct ExPublic(Public);

/// openssl's NID of the Ed25519 key type.
pub const NID_ED25519: i32 = 1087;

/// openssl's NID of the P-256 curve.
pub const NID_P256: i32 = 415;

/// openssl's NID of the P-384 curve.
pub const NID_P384: i32 = 715;

/// openssl's NID of SHA-256.
pub const NID_SHA256: i32 = 672;

/// openssl's NID of SHA-384.
pub const NID_SHA384: i32 = 673;

/// The DER encoding of the ECDSA signature whose components are the big-endian integers
/// `r` and `s`.
pub uninterp spec fn ecdsa_der(r: Seq<u8>, s: Seq<u8>) -> Seq<u8>;

/// Whether openssl parses the bytes as a DER-encoded ECDSA signature.
pub uninterp spec fn ecdsa_der_parses(der: Seq<u8>) -> bool;

/// Whether openssl accepts the raw bytes as an Ed25519 public key.
pub uninterp spec fn ed25519_key_accepted(x: Seq<u8>) -> bool;

/// Whether openssl accepts the big-endian affine coordinates as a point on the curve `nid`.
pub uninterp spec fn ec_point_accepted(nid: i32, x: Seq<u8>, y: Seq<u8>) -> bool;

/// Whether openssl finds `sig` a valid Ed25519 signature of `msg` under the raw public key `x`.
pub uninterp spec fn ed25519_signature_accepted(x: Seq<u8>, sig: Seq<u8>, msg: Seq<u8>) -> bool;

/// Whether openssl finds the DER signature `sig` a valid ECDSA signature of `msg`, hashed
/// with `digest_nid`, under the point `(x, y)` on the curve `curve_nid`.
pub uninterp spec fn ecdsa_signature_accepted(curve_nid: i32, x: Seq<u8>, y: Seq<u8>, digest_nid: i32, sig: Seq<u8>, msg: Seq<u8>) -> bool;

/// openssl's NID of an EC curve.
pub open spec fn curve_nid(e: EcKind) -> i32 {
    match e {
        EcKind::P256 => NID_P256,
        EcKind::P384 => NID_P384,
    }
}

/// openssl's NID of the digest that ECDSA on the curve hashes with.
pub open spec fn digest_nid(e: EcKind) -> i32 {
    match e {
        EcKind::P256 => NID_SHA256,
        EcKind::P384 => NID_SHA384,
    }
}

/// Whether openssl accepts the key material as a public key of its kind.
pub open spec fn key_accepted(k: KeyModel) -> bool {
    match k.0 {
        Kind::Ed25519 => ed25519_key_accepted(k.1),
        Kind::Ec(e) => ec_point_accepted(curve_nid(e), k.1, k.2),
    }
}

/// Whether openssl finds `sig` (raw for Ed25519, DER for ECDSA) a valid signature of `msg`
/// under the key.
pub open spec fn signature_accepted(k: KeyModel, sig: Seq<u8>, msg: Seq<u8>) -> bool {
    match k.0 {
        Kind::Ed25519 => ed25519_signature_accepted(k.1, sig, msg),
        Kind::Ec(e) => ecdsa_signature_accepted(curve_nid(e), k.1, k.2, digest_nid(e), sig, msg),
    }
}

/// The component `r` of a DER-encoded ECDSA signature, as a minimal big-endian string.
pub uninterp spec fn ecdsa_der_r(der: Seq<u8>) -> Seq<u8>;

/// The component `s` of a DER-encoded ECDSA signature, as a minimal big-endian string.
pub uninterp spec fn ecdsa_der_s(der: Seq<u8>) -> Seq<u8>;

/// Relies on `BigNum::from_slice`, `EcdsaSig::from_private_components` and
/// `EcdsaSig::to_der`: the DER encoding of the signature with components `r` and `s`
/// (these fail only where memory runs out; `from_slice` asserts a length within `c_int`).
#[verifier::external_body]
pub(crate) fn ecdsa_sig_to_der(r: &[u8], s: &[u8]) -> (res: Result<Vec<u8>, ErrorStack>)
    requires
        r@.len() <= i32::MAX,
        s@.len() <= i32::MAX,
    ensures
        res is Ok && res->Ok_0@ == ecdsa_der(r@, s@),
{
    let r = BigNum::from_slice(r)?;
    let s = BigNum::from_slice(s)?;
    EcdsaSig::from_private_components(r, s)?.to_der()
}

/// Relies on `EcdsaSig::from_der`, `EcdsaSig::r`, `EcdsaSig::s` and `BigNumRef::to_vec`:
/// the two components of a DER-encoded ECDSA signature, as minimal big-endian strings.
#[verifier::external_body]
pub(crate) fn ecdsa_sig_components(der: &[u8]) -> (res: Result<(Vec<u8>, Vec<u8>), ErrorStack>)
    ensures
        res is Ok <==> ecdsa_der_parses(der@),
        res is Ok ==> res->Ok_0.0@ == ecdsa_der_r(der@) && res->Ok_0.1@ == ecdsa_der_s(der@),
{
    let sig = EcdsaSig::from_der(der)?;
    Ok((sig.r().to_vec(), sig.s().to_vec()))
}

/// Relies on `PKey::public_key_from_raw_bytes`: an Ed25519 key from its raw public bytes.
#[verifier::external_body]
pub(crate) fn ed25519_from_raw(x: &[u8]) -> (res: Result<PKey<Public>, ErrorStack>)
    ensures
        res is Ok <==> ed25519_key_accepted(x@),
{
    PKey::public_key_from_raw_bytes(x, Id::ED25519)
}

/// Relies on `EcGroup::from_curve_name`, `BigNum::from_slice`,
/// `EcKey::from_public_key_affine_coordinates` and `PKey::from_ec_key`: an EC key on the
/// curve `nid` from its affine coordinates; openssl refuses a point off the curve.
#[verifier::external_body]
pub(crate) fn pkey_from_ec_coords(nid: i32, x: &[u8], y: &[u8]) -> (res: Result<PKey<Public>, ErrorStack>)
    requires
        x@.len() <= i32::MAX,
        y@.len() <= i32::MAX,
    ensures
        res is Ok <==> ec_point_accepted(nid, x@, y@),
{
    let group = EcGroup::from_curve_name(Nid::from_raw(nid))?;
    let x = BigNum::from_slice(x)?;
    let y = BigNum::from_slice(y)?;
    let key = EcKey::from_public_key_affine_coordinates(&group, &x, &y)?;
    PKey::from_ec_key(key)
}

/// Relies on `PKey::id`: the NID of the key's type.
#[verifier::external_body]
pub(crate) fn pkey_id(p: &PKey<Public>) -> (res: i32) {
    p.id().as_raw()
}

/// Relies on `PKey::ec_key`, `EcKey::group` and `EcGroupRef::curve_name`: the NID of the
/// curve of an EC key, if the key is one and its curve has a name.
#[verifier::external_body]
pub(crate) fn ec_curve_nid(p: &PKey<Public>) -> (res: Option<i32>) {
    p.ec_key().ok()?.group().curve_name().map(|n| n.as_raw())
}

/// Relies on `PKey::raw_public_key`: the raw public bytes of an Ed25519 key.
#[verifier::external_body]
pub(crate) fn raw_public_key(p: &PKey<Public>) -> (res: Result<Vec<u8>, ErrorStack>) {
    p.raw_public_key()
}

/// Relies on `PKey::ec_key` and `EcPointRef::affine_coordinates_gfp`: the affine
/// coordinates of an EC key's public point, as minimal big-endian strings (`to_vec` writes
/// no leading zero byte).
#[verifier::external_body]
pub(crate) fn affine_coordinates(p: &PKey<Public>) -> (res: Result<(Vec<u8>, Vec<u8>), ErrorStack>)
    ensures
        res matches Ok(c) ==> (c.0@.len() > 0 ==> c.0@[0] != 0) && (c.1@.len() > 0 ==> c.1@[0] != 0),
{
    let key = p.ec_key()?;
    let mut ctx = BigNumContext::new()?;
    let mut x = BigNum::new()?;
    let mut y = BigNum::new()?;
    key.public_key().affine_coordinates_gfp(key.group(), &mut x, &mut y, &mut ctx)?;
    Ok((x.to_vec(), y.to_vec()))
}

/// Relies on `Verifier::new_without_digest` and `Verifier::verify_oneshot`: whether
/// `signature` is a valid Ed25519 signature of `message` under the key.
#[verifier::external_body]
pub(crate) fn verify_without_digest(k: &PublicKey, signature: &[u8], message: &[u8]) -> (res: Result<bool, ErrorStack>)
    requires
        k.model().0 == Kind::Ed25519,
    ensures
        (res matches Ok(b) && b) <==> ed25519_signature_accepted(k.model().1, signature@, message@),
{
    Verifier::new_without_digest(k.pkey())?.verify_oneshot(signature, message)
}

/// Relies on `MessageDigest::from_nid`, `Verifier::new` and `Verifier::verify_oneshot`:
/// whether the DER `signature` is a valid ECDSA signature of `message` under the key, with
/// the message digest `digest`.
#[verifier::external_body]
pub(crate) fn verify_with_digest(k: &PublicKey, digest: i32, signature: &[u8], message: &[u8]) -> (res: Result<bool, ErrorStack>)
    requires
        k.model().0 is Ec,
    ensures
        (res matches Ok(b) && b) <==> ecdsa_signature_accepted(
            curve_nid(k.model().0->Ec_0), k.model().1, k.model().2, digest, signature@, message@),
{
    let md = MessageDigest::from_nid(Nid::from_raw(digest)).ok_or_else(ErrorStack::get)?;
    Verifier::new(md, k.pkey())?.verify_oneshot(signature, message)
}

} // verus!
