//! Public keys, and their decoding from and encoding to COSE key maps.

use crate::coord::adjust_coord;
use crate::kind::{coord_len_spec, ec_coord_len, iana_algorithm, iana_curve, EcKind, Kind, ALG_EDDSA, ALG_ES256, ALG_ES384};
use crate::keymap::{
    decoded, ec2_decoded, ec_decoded, ec_kind_of_alg, encodes, find_param, get_label_value,
    get_label_value_as_bytes, key_ops_allow_verify, model_wf, okp_decoded, param_bytes, opt_ident_is, ident_is,
    Ident, KeyError, KeyMap, KeyMaterial, KeyModel, ParamValue, KEY_OP_VERIFY, KTY_EC2, KTY_OKP, LABEL_CRV, LABEL_X,
    LABEL_Y,
};
use crate::provider::{
    key_accepted,
    affine_coordinates, ec_curve_nid, ed25519_from_raw, pkey_from_ec_coords, pkey_id, raw_public_key, NID_ED25519,
    NID_P256, NID_P384,
};
use openssl::pkey::{PKey, Public};
use vstd::prelude::*;

verus! {

/// A public key: its plain material, and the provider's handle of the same key.
pub struct PublicKey {
    material: KeyMaterial,
    pkey: PKey<Public>,
}

fn param_is_int(v: &ParamValue, i: i64) -> (r: bool)
    ensures
        r == (*v == ParamValue::Int(i as i128)),
{
    match v {
        ParamValue::Int(n) => *n == i as i128,
        _ => false,
    }
}

fn key_ops_contain_verify(ops: &Vec<Ident>) -> (r: bool)
    ensures
        r == key_ops_allow_verify(ops@),
{
    if ops.len() == 0 {
        return true;
    }
    let mut i: usize = 0;
    while i < ops.len()
        invariant
            i <= ops@.len(),
            forall|j: int| 0 <= j < i ==> ops@[j] != Ident::Assigned(KEY_OP_VERIFY),
        decreases ops.len() - i,
    {
        if ident_is(&ops[i], KEY_OP_VERIFY) {
            assert(ops@[i as int] == Ident::Assigned(KEY_OP_VERIFY));
            return true;
        }
        i = i + 1;
    }
    false
}

/// The material of an OKP key map: an Ed25519 key with the raw public key `x`.
pub fn okp_key_material(map: &KeyMap) -> (r: Result<KeyMaterial, KeyError>)
    ensures
        r matches Ok(k) ==> okp_decoded(*map) == Ok::<KeyModel, KeyError>(k.model()),
        r matches Err(e) ==> okp_decoded(*map) == Err::<KeyModel, KeyError>(e),
{
    if !ident_is(&map.kty, KTY_OKP) {
        return Err(KeyError::UnsupportedKeyType);
    }
    if !opt_ident_is(&map.alg, ALG_EDDSA) {
        return Err(KeyError::WrongAlgorithm);
    }
    let crv = get_label_value(map, LABEL_CRV)?;
    let x = get_label_value_as_bytes(map, LABEL_X)?;
    if !param_is_int(crv, iana_curve(Kind::Ed25519)) {
        return Err(KeyError::WrongCurve);
    }
    let r = KeyMaterial { kind: Kind::Ed25519, x: vstd::slice::slice_to_vec(x), y: Vec::new() };
    assert(r.y@ =~= Seq::<u8>::empty());
    Ok(r)
}

/// The material of an EC2 key map: the curve that its algorithm names, which its curve
/// parameter must repeat, and its coordinates brought to the curve's width.
pub fn ec2_key_material(map: &KeyMap) -> (r: Result<KeyMaterial, KeyError>)
    ensures
        r matches Ok(k) ==> ec2_decoded(*map) == Ok::<KeyModel, KeyError>(k.model()),
        r matches Err(e) ==> ec2_decoded(*map) == Err::<KeyModel, KeyError>(e),
{
    if !ident_is(&map.kty, KTY_EC2) {
        return Err(KeyError::UnsupportedKeyType);
    }
    let crv = get_label_value(map, LABEL_CRV)?;
    let x = get_label_value_as_bytes(map, LABEL_X)?;
    let y = get_label_value_as_bytes(map, LABEL_Y)?;
    let e = if opt_ident_is(&map.alg, ALG_ES256) {
        EcKind::P256
    } else if opt_ident_is(&map.alg, ALG_ES384) {
        EcKind::P384
    } else {
        return Err(KeyError::WrongAlgorithm);
    };
    assert(ec_kind_of_alg(map.alg) == Some(e));
    if !param_is_int(crv, iana_curve(Kind::Ec(e))) {
        return Err(KeyError::WrongCurve);
    }
    ec_material(e, vstd::slice::slice_to_vec(x), vstd::slice::slice_to_vec(y))
}

/// The material of an EC key on curve `e`: both coordinates brought to the curve's width,
/// or `BadCoordinate` where a value does not fit it.
pub fn ec_material(e: EcKind, x: Vec<u8>, y: Vec<u8>) -> (r: Result<KeyMaterial, KeyError>)
    ensures
        r matches Ok(k) ==> ec_decoded(e, x@, y@) == Ok::<KeyModel, KeyError>(k.model()),
        r matches Err(err) ==> ec_decoded(e, x@, y@) == Err::<KeyModel, KeyError>(err),
{
    let len = ec_coord_len(e);
    let x = adjust_coord(x, len);
    let y = adjust_coord(y, len);
    if x.len() != len || y.len() != len {
        return Err(KeyError::BadCoordinate);
    }
    Ok(KeyMaterial { kind: Kind::Ec(e), x, y })
}

/// The provider's handle of the key with this material, where openssl accepts it.
fn build_pkey(material: &KeyMaterial) -> (r: Result<PKey<Public>, KeyError>)
    requires
        model_wf(material.model()),
    ensures
        r is Ok <==> key_accepted(material.model()),
        r matches Err(e) ==> e == KeyError::Provider,
{
    let made = match material.kind {
        Kind::Ed25519 => ed25519_from_raw(material.x.as_slice()),
        Kind::Ec(EcKind::P256) => pkey_from_ec_coords(NID_P256, material.x.as_slice(), material.y.as_slice()),
        Kind::Ec(EcKind::P384) => pkey_from_ec_coords(NID_P384, material.x.as_slice(), material.y.as_slice()),
    };
    match made {
        Ok(pkey) => Ok(pkey),
        Err(_) => Err(KeyError::Provider),
    }
}

/// The material of a key map: the key it describes, or why it describes none. Key
/// operations, where listed, must include "verify"; the key type picks the layout.
pub fn key_material(map: &KeyMap) -> (r: Result<KeyMaterial, KeyError>)
    ensures
        r matches Ok(k) ==> decoded(*map) == Ok::<KeyModel, KeyError>(k.model()),
        r matches Err(e) ==> decoded(*map) == Err::<KeyModel, KeyError>(e),
{
    if !key_ops_contain_verify(&map.key_ops) {
        return Err(KeyError::MissingVerifyOp);
    }
    if ident_is(&map.kty, KTY_OKP) {
        okp_key_material(map)
    } else if ident_is(&map.kty, KTY_EC2) {
        ec2_key_material(map)
    } else {
        Err(KeyError::UnsupportedKeyType)
    }
}

proof fn lemma_ec_decoded_wf(k: KeyModel)
    requires
        k.0 == Kind::Ed25519 ==> k.2.len() == 0,
        k.0 is Ec ==> ec_decoded(k.0->Ec_0, k.1, k.2) == Ok::<KeyModel, KeyError>(k),
    ensures
        model_wf(k),
{
}

/// EC coordinates are exactly the curve's coordinate width: in what a key map decodes to,
/// whatever width the map held them in, and in the map that encodes a well-formed key.
pub proof fn lemma_coordinate_width(m: KeyMap, k: KeyModel)
    ensures
        decoded(m) matches Ok(d) ==> model_wf(d),
        encodes(m, k) && model_wf(k) ==> (k.0 matches Kind::Ec(e) ==> {
            &&& param_bytes(m.params@, LABEL_X) matches Ok(x) && x.len() == coord_len_spec(e)
            &&& param_bytes(m.params@, LABEL_Y) matches Ok(y) && y.len() == coord_len_spec(e)
        }),
{
    if encodes(m, k) && model_wf(k) && k.0 is Ec {
        lemma_round_trip(m, k);
        let ps = m.params@;
        let ps1 = ps.subrange(1, ps.len() as int);
        let ps2 = ps1.subrange(1, ps1.len() as int);
        assert(ps1[0] == ps[1]);
        assert(ps2[0] == ps[2]);
        assert(find_param(ps1, LABEL_X) == Some(ps[1].1));
        assert(find_param(ps, LABEL_X) == Some(ps[1].1));
        assert(find_param(ps2, LABEL_Y) == Some(ps[2].1));
        assert(find_param(ps1, LABEL_Y) == Some(ps[2].1));
        assert(find_param(ps, LABEL_Y) == Some(ps[2].1));
    }
}

/// Decoding undoes encoding: a key map that encodes a well-formed key decodes to that
/// same key, with the same kind and the same coordinates (or raw public key).
pub proof fn lemma_round_trip(m: KeyMap, k: KeyModel)
    requires
        model_wf(k),
        encodes(m, k),
    ensures
        decoded(m) == Ok::<KeyModel, KeyError>(k),
{
    let ps = m.params@;
    assert(m.key_ops@[0] == Ident::Assigned(KEY_OP_VERIFY));
    assert(key_ops_allow_verify(m.key_ops@));
    let ps1 = ps.subrange(1, ps.len() as int);
    assert(ps1[0] == ps[1]);
    assert(find_param(ps, LABEL_CRV) == Some(ps[0].1));
    assert(find_param(ps1, LABEL_X) == Some(ps[1].1));
    assert(find_param(ps, LABEL_X) == Some(ps[1].1));
    match k.0 {
        Kind::Ed25519 => {
            assert(k.2 =~= Seq::<u8>::empty());
            assert(okp_decoded(m) == Ok::<KeyModel, KeyError>(k));
        },
        Kind::Ec(e) => {
            let ps2 = ps1.subrange(1, ps1.len() as int);
            assert(ps2[0] == ps[2]);
            assert(find_param(ps2, LABEL_Y) == Some(ps[2].1));
            assert(find_param(ps1, LABEL_Y) == Some(ps[2].1));
            assert(find_param(ps, LABEL_Y) == Some(ps[2].1));
            crate::coord::lemma_adjusted(k.1, coord_len_spec(e));
            crate::coord::lemma_adjusted(k.2, coord_len_spec(e));
            assert(ec_kind_of_alg(m.alg) == Some(e));
            assert(ec2_decoded(m) == Ok::<KeyModel, KeyError>(k));
        },
    }
}

impl PublicKey {
    #[verifier::type_invariant]
    spec fn inv(&self) -> bool {
        model_wf(self.material.model()) && key_accepted(self.material.model())
    }

    /// The key's kind and coordinates.
    pub closed spec fn model(&self) -> KeyModel {
        self.material.model()
    }

    /// The key's kind.
    pub fn kind(&self) -> (r: Kind)
        ensures
            r == self.model().0,
    {
        self.material.kind
    }

    /// The key's plain material.
    pub fn material(&self) -> (r: &KeyMaterial)
        ensures
            r.model() == self.model(),
            model_wf(r.model()),
            key_accepted(r.model()),
    {
        proof {
            use_type_invariant(self);
        }
        &self.material
    }

    /// The provider's handle of the key.
    pub fn pkey(&self) -> &PKey<Public> {
        &self.pkey
    }

    /// Encodes the key as a COSE key map: OKP layout for Ed25519, EC2 layout for EC keys,
    /// with the key's algorithm and the single key operation "verify".
    pub fn to_cose_key(&self) -> (m: KeyMap)
        ensures
            encodes(m, self.model()),
            model_wf(self.model()),
            key_accepted(self.model()),
    {
        proof {
            use_type_invariant(self);
        }
        let kind = self.material.kind;
        let mut params: Vec<(Ident, ParamValue)> = Vec::new();
        params.push((Ident::Assigned(LABEL_CRV), ParamValue::Int(iana_curve(kind) as i128)));
        let x = self.material.x.clone();
        assert(x@ =~= self.material.x@);
        params.push((Ident::Assigned(LABEL_X), ParamValue::Bytes(x)));
        let kty = match kind {
            Kind::Ed25519 => KTY_OKP,
            Kind::Ec(_) => {
                let y = self.material.y.clone();
                assert(y@ =~= self.material.y@);
                params.push((Ident::Assigned(LABEL_Y), ParamValue::Bytes(y)));
                KTY_EC2
            },
        };
        let mut key_ops: Vec<Ident> = Vec::new();
        key_ops.push(Ident::Assigned(KEY_OP_VERIFY));
        assert(key_ops@ =~= seq![Ident::Assigned(KEY_OP_VERIFY)]);
        KeyMap { kty: Ident::Assigned(kty), alg: Some(Ident::Assigned(iana_algorithm(kind))), key_ops, params }
    }

    /// Wraps a provider key: Ed25519, or EC on P-256 or P-384. EC coordinates are brought to
    /// the curve's coordinate width, and the handle is rebuilt from that material, so that
    /// the key holds exactly what its material says.
    pub fn from_pkey(pkey: PKey<Public>) -> (r: Result<PublicKey, KeyError>)
        ensures
            r matches Ok(k) ==> model_wf(k.model()) && key_accepted(k.model()),
    {
        let material = if pkey_id(&pkey) == NID_ED25519 {
            match raw_public_key(&pkey) {
                Ok(x) => KeyMaterial { kind: Kind::Ed25519, x, y: Vec::new() },
                Err(_) => return Err(KeyError::Provider),
            }
        } else {
            let e = match ec_curve_nid(&pkey) {
                Some(n) => if n == NID_P256 {
                    EcKind::P256
                } else if n == NID_P384 {
                    EcKind::P384
                } else {
                    return Err(KeyError::UnsupportedKeyType);
                },
                None => return Err(KeyError::UnsupportedKeyType),
            };
            let (x, y) = match affine_coordinates(&pkey) {
                Ok(c) => c,
                Err(_) => return Err(KeyError::Provider),
            };
            ec_material(e, x, y)?
        };
        proof {
            lemma_ec_decoded_wf(material.model());
        }
        let pkey = build_pkey(&material)?;
        Ok(PublicKey { material, pkey })
    }

    /// Decodes a COSE key map into a public key. A map that describes no key gives the
    /// error `decoded` names; one that does gives the key with the decoded material,
    /// exactly where openssl accepts that material, and `Provider` otherwise.
    pub fn from_cose_key(map: &KeyMap) -> (r: Result<PublicKey, KeyError>)
        ensures
            decoded(*map) matches Err(e) ==> r == Err::<PublicKey, KeyError>(e),
            decoded(*map) matches Ok(k) ==> (r is Ok <==> key_accepted(k)),
            r matches Ok(p) ==> decoded(*map) == Ok::<KeyModel, KeyError>(p.model()),
            r matches Err(e) ==> (decoded(*map) is Err || e == KeyError::Provider),
    {
        let material = key_material(map)?;
        proof {
            lemma_coordinate_width(*map, material.model());
        }
        let pkey = build_pkey(&material)?;
        Ok(PublicKey { material, pkey })
    }
}

} // verus!
