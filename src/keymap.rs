//! The COSE key map: the fields of a `COSE_Key` that this library reads and writes.

use crate::coord::adjusted;
use crate::kind::{coord_len_spec, EcKind, Kind, ALG_EDDSA, ALG_ES256, ALG_ES384, CRV_ED25519, CRV_P256, CRV_P384};
use vstd::prelude::*;

verus! {

/// COSE key type identifier of an octet key pair (OKP).
pub const KTY_OKP: i64 = 1;

/// COSE key type identifier of a two-coordinate elliptic-curve key (EC2).
pub const KTY_EC2: i64 = 2;

/// COSE key operation identifier of "verify".
pub const KEY_OP_VERIFY: i64 = 2;

/// Label of the curve parameter (OKP and EC2).
pub const LABEL_CRV: i64 = -1;

/// Label of the `x` parameter (OKP and EC2).
pub const LABEL_X: i64 = -2;

/// Label of the `y` parameter (EC2).
pub const LABEL_Y: i64 = -3;

/// A COSE identifier: an assigned integer, or a text name.
#[derive(Clone, Debug)]
pub enum Ident {
    Assigned(i64),
    Text(String),
}

/// The value of a key parameter, as far as this library reads it.
#[derive(Clone, Debug)]
pub enum ParamValue {
    Int(i128),
    Bytes(Vec<u8>),
    /// Any other CBOR value.
    Other,
}

/// A COSE key: key type, algorithm, key operations and labelled parameters, in order.
#[derive(Clone, Debug)]
pub struct KeyMap {
    pub kty: Ident,
    pub alg: Option<Ident>,
    pub key_ops: Vec<Ident>,
    pub params: Vec<(Ident, ParamValue)>,
}

/// Why a key map does not describe a usable public key.
#[derive(Clone, Copy, Debug, PartialEq, Eq, Structural)]
pub enum KeyError {
    /// Key operations are listed, and "verify" is not among them.
    MissingVerifyOp,
    /// The key type is neither OKP nor EC2.
    UnsupportedKeyType,
    /// The algorithm does not fit the key type.
    WrongAlgorithm,
    /// The curve does not fit the algorithm.
    WrongCurve,
    /// A required parameter is missing.
    MissingField,
    /// A parameter that must be a byte string is not one.
    NotBytes,
    /// A coordinate does not fit the curve's coordinate width.
    BadCoordinate,
    /// The provider refused the key material.
    Provider,
}

/// The plain material of a public key: its kind and its coordinates (`x` alone, the raw
/// public key, for Ed25519).
#[derive(Clone, Debug)]
pub struct KeyMaterial {
    pub kind: Kind,
    pub x: Vec<u8>,
    pub y: Vec<u8>,
}

/// What a key is, mathematically: kind, `x` and `y`.
pub type KeyModel = (Kind, Seq<u8>, Seq<u8>);

impl KeyMaterial {
    pub open spec fn model(&self) -> KeyModel {
        (self.kind, self.x@, self.y@)
    }
}

/// A key model whose coordinates have the widths its kind asks for.
pub open spec fn model_wf(k: KeyModel) -> bool {
    match k.0 {
        Kind::Ed25519 => k.2.len() == 0,
        Kind::Ec(e) => k.1.len() == coord_len_spec(e) && k.2.len() == coord_len_spec(e),
    }
}

/// The value of the first parameter labelled `label`.
pub open spec fn find_param(ps: Seq<(Ident, ParamValue)>, label: i64) -> Option<ParamValue>
    decreases ps.len(),
{
    if ps.len() == 0 {
        None
    } else if ps[0].0 == Ident::Assigned(label) {
        Some(ps[0].1)
    } else {
        find_param(ps.subrange(1, ps.len() as int), label)
    }
}

/// The byte string of the first parameter labelled `label`.
pub open spec fn param_bytes(ps: Seq<(Ident, ParamValue)>, label: i64) -> Result<Seq<u8>, KeyError> {
    match find_param(ps, label) {
        None => Err(KeyError::MissingField),
        Some(ParamValue::Bytes(b)) => Ok(b@),
        Some(_) => Err(KeyError::NotBytes),
    }
}

pub open spec fn key_ops_allow_verify(ops: Seq<Ident>) -> bool {
    ops.len() == 0 || ops.contains(Ident::Assigned(KEY_OP_VERIFY))
}

/// What an OKP key map decodes to.
pub open spec fn okp_decoded(m: KeyMap) -> Result<KeyModel, KeyError> {
    if m.kty != Ident::Assigned(KTY_OKP) {
        Err(KeyError::UnsupportedKeyType)
    } else if m.alg != Some(Ident::Assigned(ALG_EDDSA)) {
        Err(KeyError::WrongAlgorithm)
    } else {
        match find_param(m.params@, LABEL_CRV) {
            None => Err(KeyError::MissingField),
            Some(crv) => match param_bytes(m.params@, LABEL_X) {
                Err(e) => Err(e),
                Ok(x) => if crv != ParamValue::Int(CRV_ED25519 as i128) {
                    Err(KeyError::WrongCurve)
                } else {
                    Ok((Kind::Ed25519, x, Seq::empty()))
                },
            },
        }
    }
}

/// The EC key on curve `e` with coordinates `x` and `y`, brought to the curve's width.
pub open spec fn ec_decoded(e: EcKind, x: Seq<u8>, y: Seq<u8>) -> Result<KeyModel, KeyError> {
    let len = coord_len_spec(e);
    if adjusted(x, len).len() != len || adjusted(y, len).len() != len {
        Err(KeyError::BadCoordinate)
    } else {
        Ok((Kind::Ec(e), adjusted(x, len), adjusted(y, len)))
    }
}

/// The curve that an EC2 algorithm identifier asks for.
pub open spec fn ec_kind_of_alg(alg: Option<Ident>) -> Option<EcKind> {
    if alg == Some(Ident::Assigned(ALG_ES256)) {
        Some(EcKind::P256)
    } else if alg == Some(Ident::Assigned(ALG_ES384)) {
        Some(EcKind::P384)
    } else {
        None
    }
}

pub open spec fn ec_curve_id(e: EcKind) -> i64 {
    match e {
        EcKind::P256 => CRV_P256,
        EcKind::P384 => CRV_P384,
    }
}

/// What an EC2 key map decodes to.
pub open spec fn ec2_decoded(m: KeyMap) -> Result<KeyModel, KeyError> {
    if m.kty != Ident::Assigned(KTY_EC2) {
        Err(KeyError::UnsupportedKeyType)
    } else {
    match find_param(m.params@, LABEL_CRV) {
        None => Err(KeyError::MissingField),
        Some(crv) => match param_bytes(m.params@, LABEL_X) {
            Err(e) => Err(e),
            Ok(x) => match param_bytes(m.params@, LABEL_Y) {
                Err(e) => Err(e),
                Ok(y) => match ec_kind_of_alg(m.alg) {
                    None => Err(KeyError::WrongAlgorithm),
                    Some(e) => if crv != ParamValue::Int(ec_curve_id(e) as i128) {
                        Err(KeyError::WrongCurve)
                    } else {
                        ec_decoded(e, x, y)
                    },
                },
            },
        },
    }
    }
}

/// What a key map decodes to: the key it describes, or why it describes none.
pub open spec fn decoded(m: KeyMap) -> Result<KeyModel, KeyError> {
    if !key_ops_allow_verify(m.key_ops@) {
        Err(KeyError::MissingVerifyOp)
    } else if m.kty == Ident::Assigned(KTY_OKP) {
        okp_decoded(m)
    } else if m.kty == Ident::Assigned(KTY_EC2) {
        ec2_decoded(m)
    } else {
        Err(KeyError::UnsupportedKeyType)
    }
}

/// The parameter `(label, Bytes(b))` with `b@ == bytes`.
pub open spec fn is_bytes_param(p: (Ident, ParamValue), label: i64, bytes: Seq<u8>) -> bool {
    p.0 == Ident::Assigned(label) && (p.1 matches ParamValue::Bytes(b) && b@ == bytes)
}

/// `m` is the key map that encodes the key `k`: OKP or EC2 layout, algorithm of the
/// kind, the single key operation "verify", and parameters curve, `x` (and `y`), in order.
pub open spec fn encodes(m: KeyMap, k: KeyModel) -> bool {
    &&& m.alg == Some(Ident::Assigned(crate::kind::algorithm_spec(k.0)))
    &&& m.key_ops@ == seq![Ident::Assigned(KEY_OP_VERIFY)]
    &&& m.params@[0] == (Ident::Assigned(LABEL_CRV), ParamValue::Int(crate::kind::curve_spec(k.0) as i128))
    &&& is_bytes_param(m.params@[1], LABEL_X, k.1)
    &&& match k.0 {
        Kind::Ed25519 => m.kty == Ident::Assigned(KTY_OKP) && m.params@.len() == 2,
        Kind::Ec(_) => {
            &&& m.kty == Ident::Assigned(KTY_EC2)
            &&& m.params@.len() == 3
            &&& is_bytes_param(m.params@[2], LABEL_Y, k.2)
        },
    }
}

pub(crate) fn ident_is(id: &Ident, v: i64) -> (r: bool)
    ensures
        r == (*id == Ident::Assigned(v)),
{
    match id {
        Ident::Assigned(a) => *a == v,
        Ident::Text(_) => false,
    }
}

pub(crate) fn opt_ident_is(id: &Option<Ident>, v: i64) -> (r: bool)
    ensures
        r == (*id == Some(Ident::Assigned(v))),
{
    match id {
        Some(i) => ident_is(i, v),
        None => false,
    }
}

/// The value of the first parameter labelled `label`.
pub fn get_label_value(key: &KeyMap, label: i64) -> (r: Result<&ParamValue, KeyError>)
    ensures
        r is Err <==> find_param(key.params@, label) is None,
        r is Err ==> r->Err_0 == KeyError::MissingField,
        r is Ok ==> find_param(key.params@, label) == Some(*r->Ok_0),
{
    let mut i: usize = 0;
    assert(key.params@.subrange(0, key.params@.len() as int) =~= key.params@);
    while i < key.params.len()
        invariant
            i <= key.params@.len(),
            find_param(key.params@, label) == find_param(key.params@.subrange(i as int, key.params@.len() as int), label),
        decreases key.params.len() - i,
    {
        let ghost rest = key.params@.subrange(i as int, key.params@.len() as int);
        assert(rest.subrange(1, rest.len() as int) =~= key.params@.subrange(i + 1, key.params@.len() as int));
        if ident_is(&key.params[i].0, label) {
            return Ok(&key.params[i].1);
        }
        i = i + 1;
    }
    Err(KeyError::MissingField)
}

/// The byte string of the first parameter labelled `label`.
pub fn get_label_value_as_bytes(key: &KeyMap, label: i64) -> (r: Result<&[u8], KeyError>)
    ensures
        r matches Ok(b) ==> param_bytes(key.params@, label) == Ok::<Seq<u8>, KeyError>(b@),
        r matches Err(e) ==> param_bytes(key.params@, label) == Err::<Seq<u8>, KeyError>(e),
{
    match get_label_value(key, label)? {
        ParamValue::Bytes(b) => Ok(b.as_slice()),
        _ => Err(KeyError::NotBytes),
    }
}

} // verus!
