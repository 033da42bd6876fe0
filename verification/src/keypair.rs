//! Ed25519 keypairs: derivation from a seed, signing, verification.
use vstd::prelude::*;
use vstd::string::StringSliceAdditionalSpecFns;

use crate::hashing::hash;
use crate::hashing::sha256_of;
use crate::utils::decode_encode_muxed_account::pk_address;
use crate::utils::decode_encode_muxed_account::strkey_pk_to_string;

verus! {

/// The ed25519 public key derived from a 32-byte seed: a pure function
/// of the seed alone.
pub uninterp spec fn ed25519_pk_of(seed: Seq<u8>) -> Seq<u8>;

/// The ed25519 signature of a message under a seed's key. Ed25519
/// signing is deterministic: the bytes depend on seed and message
/// alone.
pub uninterp spec fn ed25519_sig_of(seed: Seq<u8>, msg: Seq<u8>) -> Seq<u8>;

/// Relies on ed25519-dalek's `SigningKey::verifying_key`: the public
/// key is derived deterministically from the 32-byte seed.
#[verifier::external_body]
fn dalek_public_of_seed(seed: &[u8]) -> (r: [u8; 32])
    requires
        seed@.len() == 32,
    ensures
        r@ == ed25519_pk_of(seed@),
{
    let s: [u8; 32] = seed.try_into().unwrap();
    ed25519_dalek::SigningKey::from_bytes(&s).verifying_key().to_bytes()
}

/// Relies on ed25519-dalek's `Signer::sign` for `SigningKey`: ed25519
/// signatures are 64 bytes and deterministic in seed and message.
#[verifier::external_body]
fn dalek_sign(seed: &[u8], msg: &[u8]) -> (r: Vec<u8>)
    requires
        seed@.len() == 32,
    ensures
        r@ == ed25519_sig_of(seed@, msg@),
        r@.len() == 64,
{
    let s: [u8; 32] = seed.try_into().unwrap();
    let sk = ed25519_dalek::SigningKey::from_bytes(&s);
    let sig = ed25519_dalek::Signer::sign(&sk, msg);
    sig.to_bytes().to_vec()
}

/// Relies on ed25519-dalek's `Verifier::verify` for `VerifyingKey`: a
/// signature honestly produced under the seed of this public key
/// verifies. Nothing is assumed of any other input: the check may
/// reject or accept it as the mathematics falls.
#[verifier::external_body]
fn dalek_verify(pk: &[u8], msg: &[u8], sig: &[u8]) -> (r: bool)
    ensures
        (exists|s: Seq<u8>| pk@ == ed25519_pk_of(s) && sig@ == ed25519_sig_of(s, msg@)) ==> r,
{
    let pk32: [u8; 32] = match pk.try_into() { Ok(a) => a, Err(_) => return false };
    let vk = match ed25519_dalek::VerifyingKey::from_bytes(&pk32) { Ok(k) => k, Err(_) => return false };
    let sig64: [u8; 64] = match sig.try_into() { Ok(a) => a, Err(_) => return false };
    let signature = ed25519_dalek::Signature::from_bytes(&sig64);
    ed25519_dalek::Verifier::verify(&vk, msg, &signature).is_ok()
}

/// A signing identity: the 32-byte secret seed and the public key it
/// determines.
#[derive(Clone, Debug)]
pub struct Keypair {
    pub seed: Vec<u8>,
    pub public: [u8; 32],
}

/// The invariant of every constructed keypair: a 32-byte seed whose
/// derived public key is the stored one.
pub open spec fn wf_keypair(kp: Keypair) -> bool {
    kp.seed@.len() == 32 && kp.public@ == ed25519_pk_of(kp.seed@)
}

impl Keypair {
    /// A keypair from a raw 32-byte ed25519 seed; any other length is
    /// rejected.
    pub fn from_raw_ed25519_seed(seed: &[u8]) -> (r: Result<Keypair, String>)
        ensures
            seed@.len() == 32 ==> (r matches Ok(kp) && kp.seed@ == seed@ && wf_keypair(kp)),
            seed@.len() != 32 ==> (r matches Err(e) && e@ == "seed is invalid"@),
    {
        if seed.len() != 32 {
            return Err("seed is invalid".to_owned());
        }
        let public = dalek_public_of_seed(seed);
        Ok(Keypair { seed: vstd::slice::slice_to_vec(seed), public })
    }

    /// The network's master keypair: its seed is the hash of the
    /// network passphrase. Rejects a missing passphrase.
    pub fn master(network_passphrase: Option<&str>) -> (r: Result<Keypair, String>)
        ensures
            network_passphrase is None ==> (r matches Err(e) && e@ == "no network selected"@),
            network_passphrase matches Some(p) ==> (r matches Ok(kp) && kp.seed@ == sha256_of(
                p.spec_bytes(),
            ) && wf_keypair(kp)),
    {
        let p = match network_passphrase {
            Some(p) => p,
            Option::None => {
                return Err("no network selected".to_owned());
            },
        };
        let seed = hash(p.as_bytes());
        match Keypair::from_raw_ed25519_seed(seed.as_slice()) {
            Ok(kp) => Ok(kp),
            Err(e) => Err(e),
        }
    }

    /// The keypair's plain (`G...`) address.
    pub fn public_key(&self) -> (r: String)
        ensures
            r@ == pk_address(self.public@),
    {
        strkey_pk_to_string(&self.public)
    }

    /// Signs a payload with this keypair's seed; ed25519 signatures
    /// are 64 bytes and deterministic.
    pub fn sign(&self, data: &[u8]) -> (r: Vec<u8>)
        requires
            self.seed@.len() == 32,
        ensures
            r@ == ed25519_sig_of(self.seed@, data@),
            r@.len() == 64,
    {
        dalek_sign(self.seed.as_slice(), data)
    }

    /// Checks a signature against this keypair's public key: a
    /// signature made by `sign` over the same data always passes.
    pub fn verify(&self, data: &[u8], signature: &[u8]) -> (r: bool)
        ensures
            (exists|s: Seq<u8>|
                self.public@ == ed25519_pk_of(s) && signature@ == ed25519_sig_of(s, data@)) ==> r,
    {
        dalek_verify(self.public.as_slice(), data, signature)
    }

    /// The four-byte hint that names this signer in a decorated
    /// signature: the low-order bytes of the public key.
    pub fn signature_hint(&self) -> (r: Vec<u8>)
        ensures
            r@ == self.public@.subrange(28, 32),
    {
        let mut r: Vec<u8> = Vec::new();
        r.push(self.public[28]);
        r.push(self.public[29]);
        r.push(self.public[30]);
        r.push(self.public[31]);
        proof {
            assert(r@ =~= self.public@.subrange(28, 32));
        }
        r
    }
}

} // verus!
