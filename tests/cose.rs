use coset::cbor::value::Value;
use coset::iana::EnumI64;
use coset::{iana, Algorithm, CoseSign1, CoseSign1Builder, HeaderBuilder};
use hwtrust_cose::key::{ec2_key_material, ec_material, okp_key_material, PublicKey};
use hwtrust_cose::keymap::{Ident, KeyError, KeyMap, ParamValue};
use hwtrust_cose::kind::{ec_coord_len, iana_algorithm, EcKind, Kind};
use hwtrust_cose::sig::{ec_cose_signature_to_der, ec_der_signature_to_cose};
use hwtrust_cose::verify::{Sign1, VerifyError};
use openssl::bn::{BigNum, BigNumContext};
use openssl::ec::{EcGroup, EcKey};
use openssl::hash::MessageDigest;
use openssl::nid::Nid;
use openssl::pkey::{PKey, Private};
use openssl::sign::Signer;

struct PrivateKey {
    kind: Kind,
    pkey: PKey<Private>,
}

impl PrivateKey {
    fn ed25519() -> Self {
        PrivateKey { kind: Kind::Ed25519, pkey: PKey::generate_ed25519().unwrap() }
    }

    fn ec(kind: EcKind) -> Self {
        let nid = match kind {
            EcKind::P256 => Nid::X9_62_PRIME256V1,
            EcKind::P384 => Nid::SECP384R1,
        };
        let group = EcGroup::from_curve_name(nid).unwrap();
        let key = EcKey::generate(&group).unwrap();
        PrivateKey { kind: Kind::Ec(kind), pkey: PKey::from_ec_key(key).unwrap() }
    }

    fn public_key(&self) -> PublicKey {
        let der = self.pkey.public_key_to_der().unwrap();
        PublicKey::from_pkey(PKey::public_key_from_der(&der).unwrap()).unwrap()
    }

    /// Signature in the provider's own form: raw for Ed25519, DER for ECDSA.
    fn sign(&self, message: &[u8]) -> Vec<u8> {
        let mut signer = match self.kind {
            Kind::Ed25519 => Signer::new_without_digest(&self.pkey).unwrap(),
            Kind::Ec(EcKind::P256) => Signer::new(MessageDigest::sha256(), &self.pkey).unwrap(),
            Kind::Ec(EcKind::P384) => Signer::new(MessageDigest::sha384(), &self.pkey).unwrap(),
        };
        signer.sign_oneshot_to_vec(message).unwrap()
    }

    /// Signature in the COSE form: raw for Ed25519, `r || s` for ECDSA.
    fn sign_cose(&self, message: &[u8]) -> Vec<u8> {
        let signature = self.sign(message);
        match self.kind {
            Kind::Ec(ec) => ec_der_signature_to_cose(ec, &signature).unwrap(),
            _ => signature,
        }
    }

    fn sign_cose_sign1(&self, payload: Vec<u8>) -> CoseSign1 {
        let alg = match self.kind {
            Kind::Ed25519 => iana::Algorithm::EdDSA,
            Kind::Ec(EcKind::P256) => iana::Algorithm::ES256,
            Kind::Ec(EcKind::P384) => iana::Algorithm::ES384,
        };
        CoseSign1Builder::new()
            .protected(HeaderBuilder::new().algorithm(alg).build())
            .payload(payload)
            .create_signature(b"", |m| self.sign_cose(m))
            .build()
    }
}

fn envelope(sign1: coset::CoseSign1) -> Sign1 {
    let header = &sign1.protected.header;
    let alg = header.alg.as_ref().map(|a| match a {
        Algorithm::Assigned(a) => Ident::Assigned(a.to_i64()),
        Algorithm::PrivateUse(i) => Ident::Assigned(*i),
        Algorithm::Text(t) => Ident::Text(t.clone()),
    });
    Sign1 { alg, critical: header.crit.len(), tbs: sign1.tbs_data(b""), signature: sign1.signature.clone() }
}

fn affine_x(key: &PrivateKey) -> Vec<u8> {
    let ec = key.pkey.ec_key().unwrap();
    let mut ctx = BigNumContext::new().unwrap();
    let mut x = BigNum::new().unwrap();
    let mut y = BigNum::new().unwrap();
    ec.public_key().affine_coordinates_gfp(ec.group(), &mut x, &mut y, &mut ctx).unwrap();
    x.to_vec()
}

/// A key whose public x coordinate has a leading zero byte, found by trying fresh keys.
fn ec_key_with_short_x(kind: EcKind) -> PrivateKey {
    let len = ec_coord_len(kind);
    for _ in 0..20000 {
        let key = PrivateKey::ec(kind);
        if affine_x(&key).len() < len {
            return key;
        }
    }
    panic!("no key with a short x coordinate found");
}

fn label_bytes(map: &KeyMap, label: i64) -> Vec<u8> {
    hwtrust_cose::keymap::get_label_value_as_bytes(map, label).unwrap().to_vec()
}

#[test]
fn sign_and_verify_okp() {
    let key = PrivateKey::ed25519();
    let sign1 = key.sign_cose_sign1(b"signed payload".to_vec());
    key.public_key().verify_cose_sign1(&sign1).unwrap();
}

#[test]
fn sign_and_verify_ec2() {
    let key = PrivateKey::ec(EcKind::P256);
    let sign1 = key.sign_cose_sign1(b"signed payload".to_vec());
    assert_eq!(sign1.signature.len(), 64);
    let public = key.public_key();
    let decoded = PublicKey::from_cose_key(&public.to_cose_key()).unwrap();
    decoded.verify_cose_sign1(&sign1).unwrap();
}

#[test]
fn verify_cose_sign1() {
    let key = PrivateKey::ed25519();
    let sign1 = CoseSign1Builder::new()
        .protected(HeaderBuilder::new().algorithm(iana::Algorithm::EdDSA).build())
        .payload(b"the message".to_vec())
        .create_signature(b"", |m| key.sign(m))
        .build();
    key.public_key().verify_cose_sign1(&sign1).unwrap();
}

#[test]
fn verify_cose_sign1_fails_with_wrong_algorithm() {
    let key = PrivateKey::ed25519();
    let sign1 = CoseSign1Builder::new()
        .protected(HeaderBuilder::new().algorithm(iana::Algorithm::ES256).build())
        .payload(b"the message".to_vec())
        .create_signature(b"", |m| key.sign(m))
        .build();
    let err = key.public_key().verify_cose_sign1(&sign1).unwrap_err();
    assert_eq!(err, VerifyError::AlgorithmMismatch);
}

#[test]
fn verify_cose_sign1_with_non_crit_header() {
    let key = PrivateKey::ed25519();
    let sign1 = CoseSign1Builder::new()
        .protected(
            HeaderBuilder::new()
                .algorithm(iana::Algorithm::EdDSA)
                .value(1000, Value::from(2000))
                .build(),
        )
        .payload(b"the message".to_vec())
        .create_signature(b"", |m| key.sign(m))
        .build();
    key.public_key().verify_cose_sign1(&sign1).unwrap()
}

#[test]
fn verify_cose_sign1_fails_with_crit_header() {
    let key = PrivateKey::ed25519();
    let sign1 = CoseSign1Builder::new()
        .protected(
            HeaderBuilder::new()
                .algorithm(iana::Algorithm::EdDSA)
                .add_critical(iana::HeaderParameter::Alg)
                .build(),
        )
        .payload(b"the message".to_vec())
        .create_signature(b"", |m| key.sign(m))
        .build();
    let err = key.public_key().verify_cose_sign1(&sign1).unwrap_err();
    assert_eq!(err, VerifyError::CriticalHeader);
}

#[test]
fn to_and_from_okp_cose_key() {
    let key = PrivateKey::ed25519().public_key();
    let value = key.to_cose_key();
    let new_key = PublicKey::from_cose_key(&value).unwrap();
    assert!(key.pkey().public_eq(new_key.pkey()));
}

#[test]
fn to_and_from_ec2_cose_key() {
    let key = PrivateKey::ec(EcKind::P256).public_key();
    let value = key.to_cose_key();
    let new_key = PublicKey::from_cose_key(&value).unwrap();
    assert!(key.pkey().public_eq(new_key.pkey()));
}

#[test]
fn from_p256_pkey_with_leading_zeros() {
    let key = ec_key_with_short_x(EcKind::P256).public_key();
    let cose_key = key.to_cose_key();
    let x = label_bytes(&cose_key, -2);
    assert_eq!(x.len(), 32, "X coordinate is the wrong size");
    assert_eq!(x[0], 0);
    let y = label_bytes(&cose_key, -3);
    assert_eq!(y.len(), 32, "Y coordinate is the wrong size");
}

#[test]
fn from_p384_pkey_with_leading_zeros() {
    let key = ec_key_with_short_x(EcKind::P384).public_key();
    let cose_key = key.to_cose_key();
    let x = label_bytes(&cose_key, -2);
    assert_eq!(x.len(), 48, "X coordinate is the wrong size");
    assert_eq!(x[0], 0);
    let y = label_bytes(&cose_key, -3);
    assert_eq!(y.len(), 48, "Y coordinate is the wrong size");
}

#[test]
fn to_and_from_p384_cose_key_verifies() {
    let key = PrivateKey::ec(EcKind::P384);
    let public = PublicKey::from_cose_key(&key.public_key().to_cose_key()).unwrap();
    assert_eq!(public.kind(), Kind::Ec(EcKind::P384));
    let sign1 = key.sign_cose_sign1(b"signed payload".to_vec());
    assert_eq!(sign1.signature.len(), 96);
    public.verify_cose_sign1(&sign1).unwrap();
}

#[test]
fn round_trip_keeps_material() {
    for key in [PrivateKey::ed25519(), PrivateKey::ec(EcKind::P256), PrivateKey::ec(EcKind::P384)] {
        let public = key.public_key();
        let decoded = PublicKey::from_cose_key(&public.to_cose_key()).unwrap();
        assert_eq!(decoded.kind(), public.kind());
        assert_eq!(decoded.material().x, public.material().x);
        assert_eq!(decoded.material().y, public.material().y);
    }
}

#[test]
fn encoded_key_fields() {
    let key = PrivateKey::ed25519().public_key();
    let map = key.to_cose_key();
    assert!(matches!(map.kty, Ident::Assigned(1)));
    assert!(matches!(map.alg, Some(Ident::Assigned(-8))));
    assert_eq!(map.key_ops.len(), 1);
    assert!(matches!(map.key_ops[0], Ident::Assigned(2)));
    assert_eq!(map.params.len(), 2);
    assert!(matches!(map.params[0], (Ident::Assigned(-1), ParamValue::Int(6))));
    assert_eq!(label_bytes(&map, -2).len(), 32);

    let key = PrivateKey::ec(EcKind::P384).public_key();
    let map = key.to_cose_key();
    assert!(matches!(map.kty, Ident::Assigned(2)));
    assert!(matches!(map.alg, Some(Ident::Assigned(-35))));
    assert_eq!(map.params.len(), 3);
    assert!(matches!(map.params[0], (Ident::Assigned(-1), ParamValue::Int(2))));
    assert_eq!(label_bytes(&map, -3).len(), 48);
}

fn ec2_map(crv: i128, alg: i64, x: Vec<u8>, y: Vec<u8>) -> KeyMap {
    KeyMap {
        kty: Ident::Assigned(2),
        alg: Some(Ident::Assigned(alg)),
        key_ops: vec![],
        params: vec![
            (Ident::Assigned(-1), ParamValue::Int(crv)),
            (Ident::Assigned(-2), ParamValue::Bytes(x)),
            (Ident::Assigned(-3), ParamValue::Bytes(y)),
        ],
    }
}

#[test]
fn decode_fails_on_curve_algorithm_mismatch() {
    let mut map = PrivateKey::ec(EcKind::P256).public_key().to_cose_key();
    map.alg = Some(Ident::Assigned(-35));
    assert_eq!(PublicKey::from_cose_key(&map).err(), Some(KeyError::WrongCurve));
    let map = ec2_map(1, -35, vec![1; 32], vec![2; 32]);
    assert_eq!(PublicKey::from_cose_key(&map).err(), Some(KeyError::WrongCurve));
}

#[test]
fn decode_errors() {
    let good = PrivateKey::ec(EcKind::P256).public_key().to_cose_key();

    let mut map = good.clone();
    map.key_ops = vec![Ident::Assigned(1)];
    assert_eq!(PublicKey::from_cose_key(&map).err(), Some(KeyError::MissingVerifyOp));

    let mut map = good.clone();
    map.key_ops = vec![];
    assert!(PublicKey::from_cose_key(&map).is_ok());

    let mut map = good.clone();
    map.kty = Ident::Assigned(4);
    assert_eq!(PublicKey::from_cose_key(&map).err(), Some(KeyError::UnsupportedKeyType));

    let mut map = good.clone();
    map.kty = Ident::Text("EC2".to_string());
    assert_eq!(PublicKey::from_cose_key(&map).err(), Some(KeyError::UnsupportedKeyType));

    let mut map = good.clone();
    map.alg = Some(Ident::Assigned(-8));
    assert_eq!(PublicKey::from_cose_key(&map).err(), Some(KeyError::WrongAlgorithm));

    let mut map = good.clone();
    map.params.pop();
    assert_eq!(PublicKey::from_cose_key(&map).err(), Some(KeyError::MissingField));

    let mut map = good.clone();
    map.params[1].1 = ParamValue::Int(5);
    assert_eq!(PublicKey::from_cose_key(&map).err(), Some(KeyError::NotBytes));

    let map = ec2_map(1, -7, vec![1; 33], vec![2; 32]);
    assert_eq!(PublicKey::from_cose_key(&map).err(), Some(KeyError::BadCoordinate));

    let map = ec2_map(1, -7, vec![1; 32], vec![2; 32]);
    assert_eq!(PublicKey::from_cose_key(&map).err(), Some(KeyError::Provider));

    let okp = PrivateKey::ed25519().public_key().to_cose_key();
    let mut map = okp.clone();
    map.params[0].1 = ParamValue::Int(1);
    assert_eq!(PublicKey::from_cose_key(&map).err(), Some(KeyError::WrongCurve));
    let mut map = okp.clone();
    map.alg = Some(Ident::Assigned(-7));
    assert_eq!(PublicKey::from_cose_key(&map).err(), Some(KeyError::WrongAlgorithm));
}

#[test]
fn decode_pads_short_and_strips_long_coordinates() {
    let key = PrivateKey::ec(EcKind::P256).public_key();
    let mut map = key.to_cose_key();
    let x = label_bytes(&map, -2);
    let mut longer = vec![0u8, 0u8];
    longer.extend_from_slice(&x);
    map.params[1].1 = ParamValue::Bytes(longer);
    let decoded = PublicKey::from_cose_key(&map).unwrap();
    assert_eq!(decoded.material().x, x);
    assert!(key.pkey().public_eq(decoded.pkey()));

    let short = ec_key_with_short_x(EcKind::P256).public_key();
    let mut map = short.to_cose_key();
    let x = label_bytes(&map, -2);
    map.params[1].1 = ParamValue::Bytes(x[1..].to_vec());
    let decoded = PublicKey::from_cose_key(&map).unwrap();
    assert_eq!(decoded.material().x, x);
}

#[test]
fn wrong_length_raw_signature() {
    let key = PrivateKey::ec(EcKind::P256);
    let mut sign1 = envelope(key.sign_cose_sign1(b"signed payload".to_vec()));
    sign1.signature.pop();
    assert_eq!(sign1.signature.len(), 63);
    let err = key.public_key().verify_envelope(&sign1).unwrap_err();
    assert_eq!(err, VerifyError::BadSignatureFormat);
    assert_eq!(ec_cose_signature_to_der(EcKind::P256, &[0u8; 63]).err(), Some(hwtrust_cose::sig::FormatError::WrongLength));
    assert_eq!(ec_cose_signature_to_der(EcKind::P384, &[1u8; 64]).err(), Some(hwtrust_cose::sig::FormatError::WrongLength));
}

#[test]
fn tampered_signature_is_a_mismatch() {
    let key = PrivateKey::ec(EcKind::P256);
    let mut sign1 = envelope(key.sign_cose_sign1(b"signed payload".to_vec()));
    sign1.tbs.push(0);
    assert_eq!(key.public_key().verify_envelope(&sign1).unwrap_err(), VerifyError::SignatureMismatch);

    let key = PrivateKey::ed25519();
    let mut sign1 = envelope(key.sign_cose_sign1(b"signed payload".to_vec()));
    sign1.signature[0] ^= 1;
    assert_eq!(key.public_key().verify_envelope(&sign1).unwrap_err(), VerifyError::SignatureMismatch);
}

#[test]
fn critical_header_rejected_before_algorithm() {
    let key = PrivateKey::ed25519();
    let mut sign1 = envelope(key.sign_cose_sign1(b"signed payload".to_vec()));
    key.public_key().verify_envelope(&sign1).unwrap();
    sign1.critical = 1;
    sign1.alg = Some(Ident::Assigned(-7));
    assert_eq!(key.public_key().verify_envelope(&sign1).unwrap_err(), VerifyError::CriticalHeader);
}

#[test]
fn algorithm_pinning_for_ec_keys() {
    let key = PrivateKey::ec(EcKind::P256);
    let mut sign1 = envelope(key.sign_cose_sign1(b"signed payload".to_vec()));
    sign1.alg = Some(Ident::Assigned(-35));
    assert_eq!(key.public_key().verify_envelope(&sign1).unwrap_err(), VerifyError::AlgorithmMismatch);
    sign1.alg = None;
    assert_eq!(key.public_key().verify_envelope(&sign1).unwrap_err(), VerifyError::AlgorithmMismatch);
}

#[test]
fn der_signature_round_trip_verifies() {
    for kind in [EcKind::P256, EcKind::P384] {
        let key = PrivateKey::ec(kind);
        let der = key.sign(b"message");
        let raw = ec_der_signature_to_cose(kind, &der).unwrap();
        assert_eq!(raw.len(), 2 * ec_coord_len(kind));
        let der2 = ec_cose_signature_to_der(kind, &raw).unwrap();
        key.public_key().verify(&der2, b"message").unwrap();
        assert_eq!(ec_der_signature_to_cose(kind, &der2).unwrap(), raw);
    }
}

#[test]
fn der_signature_components_are_padded() {
    // SEQUENCE { INTEGER 1, INTEGER 2 }
    let der = [0x30u8, 0x06, 0x02, 0x01, 0x01, 0x02, 0x01, 0x02];
    let raw = ec_der_signature_to_cose(EcKind::P256, &der).unwrap();
    let mut expected = vec![0u8; 64];
    expected[31] = 1;
    expected[63] = 2;
    assert_eq!(raw, expected);
    assert_eq!(ec_cose_signature_to_der(EcKind::P256, &raw).unwrap(), der.to_vec());
}

#[test]
fn kind_constants() {
    assert_eq!(ec_coord_len(EcKind::P256), 32);
    assert_eq!(ec_coord_len(EcKind::P384), 48);
    assert_eq!(iana_algorithm(Kind::Ed25519), -8);
    assert_eq!(iana_algorithm(Kind::Ec(EcKind::P256)), -7);
    assert_eq!(iana_algorithm(Kind::Ec(EcKind::P384)), -35);
}

#[test]
fn layout_helpers_check_key_type() {
    let ec2 = PrivateKey::ec(EcKind::P256).public_key().to_cose_key();
    assert_eq!(okp_key_material(&ec2).err(), Some(KeyError::UnsupportedKeyType));
    assert!(ec2_key_material(&ec2).is_ok());
    let okp = PrivateKey::ed25519().public_key().to_cose_key();
    assert_eq!(ec2_key_material(&okp).err(), Some(KeyError::UnsupportedKeyType));
    assert!(okp_key_material(&okp).is_ok());
}

#[test]
fn ec_material_normalizes_coordinates() {
    let m = ec_material(EcKind::P256, vec![0, 0, 5], vec![7; 32]).unwrap();
    assert_eq!(m.kind, Kind::Ec(EcKind::P256));
    let mut expected = vec![0u8; 32];
    expected[31] = 5;
    assert_eq!(m.x, expected);
    assert_eq!(m.y, vec![7u8; 32]);
    assert_eq!(ec_material(EcKind::P384, vec![1; 49], vec![7; 48]).err(), Some(KeyError::BadCoordinate));
    assert_eq!(ec_material(EcKind::P384, vec![0; 49], vec![7; 47]).unwrap().x, vec![0u8; 48]);
}

#[test]
fn bad_der_signature_is_a_provider_error() {
    assert_eq!(ec_der_signature_to_cose(EcKind::P256, &[1, 2, 3]).err(), Some(hwtrust_cose::sig::FormatError::Provider));
}

#[test]
fn oversized_der_component_is_rejected() {
    // SEQUENCE { INTEGER (33 bytes, no leading zero), INTEGER 2 }
    let mut der = vec![0x30u8, 0x26, 0x02, 0x21];
    der.extend_from_slice(&[0x7fu8; 33]);
    der.extend_from_slice(&[0x02, 0x01, 0x02]);
    assert_eq!(
        ec_der_signature_to_cose(EcKind::P256, &der).err(),
        Some(hwtrust_cose::sig::FormatError::ComponentTooLarge)
    );
}
