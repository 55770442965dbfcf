//! Verification of COSE_Sign1 envelopes against a public key.

use crate::cose::sign1_envelope;
use crate::key::PublicKey;
use crate::keymap::{opt_ident_is, Ident};
use crate::kind::{algorithm_spec, coord_len_spec, iana_algorithm, EcKind, Kind};
use crate::provider::{ecdsa_der, signature_accepted, verify_with_digest, verify_without_digest, NID_SHA256, NID_SHA384};
use crate::sig::ec_cose_signature_to_der;
use coset::CoseSign1;
use openssl::error::ErrorStack;
use vstd::prelude::*;

verus! {

/// A COSE_Sign1 envelope, as far as verification reads it: the algorithm and the number
/// of critical header labels of the protected header, the bytes that were signed (the `Sig_structure`
/// over protected header, external data and payload), and the signature.
#[derive(Clone, Debug)]
pub struct Sign1 {
    pub alg: Option<Ident>,
    pub critical: usize,
    pub tbs: Vec<u8>,
    pub signature: Vec<u8>,
}

/// Why an envelope was not accepted.
#[derive(Clone, Copy, Debug, PartialEq, Eq, Structural)]
pub enum VerifyError {
    /// The protected header marks a header as critical.
    CriticalHeader,
    /// The protected header's algorithm is not the key's.
    AlgorithmMismatch,
    /// The signature could not be brought to the form the provider verifies.
    BadSignatureFormat,
    /// The signature does not match the message.
    SignatureMismatch,
    /// The provider failed.
    ProviderFailure,
}

/// The rejection that the envelope's form alone calls for under a key of kind `kind`, in
/// the order the checks are made; `None` where the signature must be checked.
pub open spec fn envelope_rejection(kind: Kind, env: Sign1) -> Option<VerifyError> {
    if env.critical > 0 {
        Some(VerifyError::CriticalHeader)
    } else if env.alg != Some(Ident::Assigned(algorithm_spec(kind))) {
        Some(VerifyError::AlgorithmMismatch)
    } else if kind matches Kind::Ec(e) && env.signature@.len() != 2 * coord_len_spec(e) {
        Some(VerifyError::BadSignatureFormat)
    } else {
        None
    }
}

/// The signature that the provider checks for a COSE signature under a key of kind `kind`:
/// the raw bytes for Ed25519, and the DER encoding of the two halves for ECDSA.
pub open spec fn provider_signature(kind: Kind, sig: Seq<u8>) -> Seq<u8> {
    match kind {
        Kind::Ed25519 => sig,
        Kind::Ec(e) => ecdsa_der(
            sig.subrange(0, coord_len_spec(e) as int),
            sig.subrange(coord_len_spec(e) as int, 2 * coord_len_spec(e) as int),
        ),
    }
}

/// The verdict on the provider's answer: a signature is accepted only where the provider
/// found it valid.
pub fn provider_verdict(outcome: Result<bool, ErrorStack>) -> (r: Result<(), VerifyError>)
    ensures
        (outcome matches Ok(v) && v) <==> r is Ok,
        outcome matches Ok(v) && !v ==> r == Err::<(), VerifyError>(VerifyError::SignatureMismatch),
        outcome is Err ==> r == Err::<(), VerifyError>(VerifyError::ProviderFailure),
{
    match outcome {
        Ok(true) => Ok(()),
        Ok(false) => Err(VerifyError::SignatureMismatch),
        Err(_) => Err(VerifyError::ProviderFailure),
    }
}

impl PublicKey {
    /// Verifies a signature in the provider's own form (raw for Ed25519, DER for ECDSA) over
    /// `message`. It fails only as a mismatch or as a provider failure.
    pub fn verify(&self, signature: &[u8], message: &[u8]) -> (r: Result<(), VerifyError>)
        ensures
            r is Ok <==> signature_accepted(self.model(), signature@, message@),
            r matches Err(e) ==> e == VerifyError::SignatureMismatch || e == VerifyError::ProviderFailure,
    {
        let outcome = match self.kind() {
            Kind::Ed25519 => verify_without_digest(self, signature, message),
            Kind::Ec(EcKind::P256) => verify_with_digest(self, NID_SHA256, signature, message),
            Kind::Ec(EcKind::P384) => verify_with_digest(self, NID_SHA384, signature, message),
        };
        provider_verdict(outcome)
    }

    /// Verifies a COSE_Sign1 as `verify_envelope` does, on the envelope that coset reads
    /// from it: its protected header and signature, and the bytes it signed.
    pub fn verify_cose_sign1(&self, sign1: &CoseSign1) -> (r: Result<(), VerifyError>)
        ensures
            r matches Err(e) ==> e != VerifyError::BadSignatureFormat || self.model().0 is Ec,
    {
        let envelope = sign1_envelope(sign1);
        self.verify_envelope(&envelope)
    }

    /// Verifies a COSE_Sign1 envelope. No critical headers are allowed, the protected
    /// algorithm must be the key's own, and an ECDSA signature must be `r || s` at the
    /// curve's width; only then is the provider asked, with the signature in DER for ECDSA.
    pub fn verify_envelope(&self, sign1: &Sign1) -> (r: Result<(), VerifyError>)
        ensures
            envelope_rejection(self.model().0, *sign1) matches Some(e) ==> r == Err::<(), VerifyError>(e),
            envelope_rejection(self.model().0, *sign1) is None ==> (r is Ok <==> signature_accepted(
                self.model(),
                provider_signature(self.model().0, sign1.signature@),
                sign1.tbs@,
            )),
            r matches Err(e) ==> envelope_rejection(self.model().0, *sign1) == Some(e)
                || e == VerifyError::SignatureMismatch || e == VerifyError::ProviderFailure,
    {
        if sign1.critical > 0 {
            return Err(VerifyError::CriticalHeader);
        }
        let kind = self.kind();
        if !opt_ident_is(&sign1.alg, iana_algorithm(kind)) {
            return Err(VerifyError::AlgorithmMismatch);
        }
        match kind {
            Kind::Ec(e) => {
                let der = match ec_cose_signature_to_der(e, sign1.signature.as_slice()) {
                    Ok(der) => der,
                    Err(_) => return Err(VerifyError::BadSignatureFormat),
                };
                self.verify(der.as_slice(), sign1.tbs.as_slice())
            },
            Kind::Ed25519 => self.verify(sign1.signature.as_slice(), sign1.tbs.as_slice()),
        }
    }
}

} // verus!
