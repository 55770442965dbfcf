//! Key kinds and the protocol identifiers that belong to them.

use vstd::prelude::*;

verus! {

/// The elliptic curves that an EC2 key may lie on.
#[derive(Clone, Copy, Debug, PartialEq, Eq, Structural)]
pub enum EcKind {
    P256,
    P384,
}

/// The kind of a public key.
#[derive(Clone, Copy, Debug, PartialEq, Eq, Structural)]
pub enum Kind {
    Ed25519,
    Ec(EcKind),
}

/// COSE algorithm identifier of EdDSA.
pub const ALG_EDDSA: i64 = -8;

/// COSE algorithm identifier of ECDSA with SHA-256.
pub const ALG_ES256: i64 = -7;

/// COSE algorithm identifier of ECDSA with SHA-384.
pub const ALG_ES384: i64 = -35;

/// COSE elliptic curve identifier of P-256.
pub const CRV_P256: i64 = 1;

/// COSE elliptic curve identifier of P-384.
pub const CRV_P384: i64 = 2;

/// COSE elliptic curve identifier of Ed25519.
pub const CRV_ED25519: i64 = 6;

pub open spec fn coord_len_spec(kind: EcKind) -> nat {
    match kind {
        EcKind::P256 => 32,
        EcKind::P384 => 48,
    }
}

pub open spec fn algorithm_spec(kind: Kind) -> i64 {
    match kind {
        Kind::Ed25519 => ALG_EDDSA,
        Kind::Ec(EcKind::P256) => ALG_ES256,
        Kind::Ec(EcKind::P384) => ALG_ES384,
    }
}

pub open spec fn curve_spec(kind: Kind) -> i64 {
    match kind {
        Kind::Ed25519 => CRV_ED25519,
        Kind::Ec(EcKind::P256) => CRV_P256,
        Kind::Ec(EcKind::P384) => CRV_P384,
    }
}

/// Width in bytes of one coordinate (and of one signature component) on the curve.
pub fn ec_coord_len(kind: EcKind) -> (r: usize)
    ensures
        r == coord_len_spec(kind),
{
    match kind {
        EcKind::P256 => 32,
        EcKind::P384 => 48,
    }
}

/// The COSE algorithm that a key of this kind signs with.
pub fn iana_algorithm(kind: Kind) -> (r: i64)
    ensures
        r == algorithm_spec(kind),
{
    match kind {
        Kind::Ed25519 => ALG_EDDSA,
        Kind::Ec(EcKind::P256) => ALG_ES256,
        Kind::Ec(EcKind::P384) => ALG_ES384,
    }
}

/// The COSE curve identifier of a key of this kind.
pub fn iana_curve(kind: Kind) -> (r: i64)
    ensures
        r == curve_spec(kind),
{
    match kind {
        Kind::Ed25519 => CRV_ED25519,
        Kind::Ec(EcKind::P256) => CRV_P256,
        Kind::Ec(EcKind::P384) => CRV_P384,
    }
}

} // verus!
