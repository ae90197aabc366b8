//! The trusted boundary to the BLS signature scheme.
//!
//! The ledger itself only moves key, signature and message bytes around; the
//! scheme's mathematics live in the `bls12_381_bls` crate behind the three
//! wrappers below. Verification is deterministic in its three byte-string
//! arguments, so its outcome carries the name [`bls_verifies`] and the
//! ledger's contracts are stated in terms of that name.

use vstd::prelude::*;
use dusk_bytes::Serializable;
use crate::identity::{PK_BYTES, SIG_BYTES};

verus! {

#[verifier::external_type_specification]
#[verifier::external_body]
pub struct ExSecretKey(bls12_381_bls::SecretKey);

/// What BLS verification returns for a message, a compressed public key and
/// a compressed signature: `true` exactly when all three decode and the
/// signature is valid for the message under the key. The outcome is a
/// function of the three byte strings alone.
pub uninterp spec fn bls_verifies(msg: Seq<u8>, pk: Seq<u8>, sig: Seq<u8>) -> bool;

/// Relies on `bls12_381_bls::PublicKey::from` and
/// `dusk_bytes::Serializable::to_bytes`: the compressed public key derived
/// from a secret key is [`PK_BYTES`] wide.
#[verifier::external_body]
pub(crate) fn bls_public_key_bytes(sk: &bls12_381_bls::SecretKey) -> (r: Vec<u8>)
    ensures
        r@.len() == PK_BYTES,
{
    bls12_381_bls::PublicKey::from(sk).to_bytes().to_vec()
}

/// Relies on `bls12_381_bls::SecretKey::sign` and
/// `dusk_bytes::Serializable::to_bytes`: a compressed BLS signature is
/// [`SIG_BYTES`] wide.
#[verifier::external_body]
pub(crate) fn bls_sign(sk: &bls12_381_bls::SecretKey, msg: &Vec<u8>) -> (r: Vec<u8>)
    ensures
        r@.len() == SIG_BYTES,
{
    sk.sign(msg.as_slice()).to_bytes().to_vec()
}

/// Relies on `bls12_381_bls::PublicKey::verify` together with the
/// `dusk_bytes::Serializable::from_bytes` decoders: verification of `sig`
/// over `msg` against `pk` is deterministic in the three byte strings, and
/// fails when the key or signature bytes do not decode.
#[verifier::external_body]
pub(crate) fn bls_verify(msg: &Vec<u8>, pk: &Vec<u8>, sig: &Vec<u8>) -> (r: bool)
    ensures
        r == bls_verifies(msg@, pk@, sig@),
{
    let pk_arr: [u8; 96] = match pk.as_slice().try_into() { Ok(a) => a, Err(_) => return false };
    let sig_arr: [u8; 48] = match sig.as_slice().try_into() { Ok(a) => a, Err(_) => return false };
    let pk = match bls12_381_bls::PublicKey::from_bytes(&pk_arr) { Ok(k) => k, Err(_) => return false };
    let sig = match bls12_381_bls::Signature::from_bytes(&sig_arr) { Ok(s) => s, Err(_) => return false };
    pk.verify(&sig, msg.as_slice()).is_ok()
}

} // verus!
