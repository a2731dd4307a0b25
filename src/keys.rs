//! Ed25519 keypairs: generation, reconstruction from raw bytes, signing and
//! verification.
use vstd::prelude::*;
use solana_sdk::signer::Signer;
use crate::codec::{Identifier, Signature};

verus! {

/// The public identifier that Ed25519 derives from a 32-byte secret seed.
pub uninterp spec fn derived_public(secret: Seq<u8>) -> Seq<u8>;

/// The Ed25519 signature of a message under a 32-byte secret seed.
pub uninterp spec fn signature_of(secret: Seq<u8>, message: Seq<u8>) -> Seq<u8>;

/// Whether a signature is accepted for a message under a public identifier.
pub uninterp spec fn signature_accepts(sig: Seq<u8>, message: Seq<u8>, public: Seq<u8>) -> bool;

/// Relies on `Keypair::new` (operating-system randomness): a fresh 32-byte
/// secret seed, of which nothing else is known.
#[verifier::external_body]
fn random_secret() -> (r: Vec<u8>)
    ensures
        r@.len() == 32,
{
    solana_sdk::signature::Keypair::new().secret_bytes().to_vec()
}

/// Relies on `Keypair::new_from_array` and `Signer::pubkey`: the 32-byte
/// public key that Ed25519 derives from the seed.
#[verifier::external_body]
fn public_of_secret(secret: &[u8]) -> (r: Vec<u8>)
    requires
        secret@.len() == 32,
    ensures
        r@ == derived_public(secret@),
        r@.len() == 32,
{
    let seed: [u8; 32] = secret.try_into().unwrap();
    solana_sdk::signature::Keypair::new_from_array(seed).pubkey().to_bytes().to_vec()
}

/// Relies on `Signer::sign_message` of an Ed25519 keypair: a 64-byte
/// signature, which Ed25519 verification accepts under the derived public key.
#[verifier::external_body]
fn ed25519_sign(secret: &[u8], message: &[u8]) -> (r: Vec<u8>)
    requires
        secret@.len() == 32,
    ensures
        r@ == signature_of(secret@, message@),
        r@.len() == 64,
        signature_accepts(r@, message@, derived_public(secret@)),
{
    let seed: [u8; 32] = secret.try_into().unwrap();
    let kp = solana_sdk::signature::Keypair::new_from_array(seed);
    <[u8; 64]>::from(kp.sign_message(message)).to_vec()
}

/// Relies on `Signature::verify`: strict Ed25519 verification, false on any
/// malformed input.
#[verifier::external_body]
fn ed25519_verify(sig: &[u8], message: &[u8], public: &[u8]) -> (r: bool)
    requires
        sig@.len() == 64,
    ensures
        r == signature_accepts(sig@, message@, public@),
{
    let bytes: [u8; 64] = sig.try_into().unwrap();
    solana_sdk::signature::Signature::from(bytes).verify(public, message)
}

/// How many seeds key generation draws before it gives up.
pub const GENERATION_ATTEMPTS: u32 = 4;

/// An Ed25519 keypair: a secret seed and the public identifier derived from it.
pub struct Keypair {
    pub secret: Vec<u8>,
    pub public: Identifier,
}

impl Keypair {
    pub open spec fn secret_view(&self) -> Seq<u8> {
        self.secret@
    }

    pub open spec fn public_view(&self) -> Seq<u8> {
        self.public@
    }

    /// The public half is the derivation of the secret half.
    pub open spec fn wf(&self) -> bool {
        self.secret@.len() == 32 && self.public@.len() == 32 && self.public@ == derived_public(
            self.secret@,
        )
    }

    /// Builds the keypair of a 32-byte secret seed.
    pub fn from_seed(seed: &[u8]) -> (r: Keypair)
        requires
            seed@.len() == 32,
        ensures
            r.wf(),
            r.secret_view() == seed@,
    {
        let public = public_of_secret(seed);
        Keypair { secret: vstd::slice::slice_to_vec(seed), public: Identifier { bytes: public } }
    }

    /// The keypair of a drawn seed; refused when the derived identifier is
    /// all zero.
    pub fn from_drawn_seed(seed: &[u8]) -> (r: Result<Keypair, KeyError>)
        requires
            seed@.len() == 32,
        ensures
            r is Ok <==> !is_zero(derived_public(seed@)),
            r matches Ok(k) ==> k.wf() && k.secret_view() == seed@,
            r matches Err(e) ==> e == KeyError::Degenerate,
    {
        let k = Keypair::from_seed(seed);
        if all_zero(k.public.bytes.as_slice()) {
            Err(KeyError::Degenerate)
        } else {
            Ok(k)
        }
    }

    /// Draws a fresh keypair, drawing again (up to `GENERATION_ATTEMPTS`
    /// times in all) while the derived identifier is all zero.
    pub fn generate() -> (r: Result<Keypair, KeyError>)
        ensures
            r matches Ok(k) ==> k.wf() && !is_zero(k.public_view()),
            r matches Err(e) ==> e == KeyError::Degenerate,
    {
        let mut attempt: u32 = 0;
        while attempt < GENERATION_ATTEMPTS
            invariant
                attempt <= GENERATION_ATTEMPTS,
            decreases GENERATION_ATTEMPTS - attempt,
        {
            let seed = random_secret();
            match Keypair::from_drawn_seed(seed.as_slice()) {
                Ok(k) => return Ok(k),
                Err(_) => {},
            }
            attempt = attempt + 1;
        }
        Err(KeyError::Degenerate)
    }

    /// Rebuilds a keypair from 32 bytes (secret seed) or 64 bytes (seed then
    /// public key, which must be the one derived from the seed).
    pub fn from_secret_bytes(bytes: &[u8]) -> (r: Result<Keypair, KeyError>)
        ensures
            r is Ok <==> secret_bytes_valid(bytes@),
            r matches Ok(k) ==> k.wf() && k.secret_view() == bytes@.subrange(0, 32),
            r matches Err(e) ==> e == KeyError::InvalidKeyBytes,
    {
        if bytes.len() == 32 {
            Ok(Keypair::from_seed(bytes))
        } else if bytes.len() == 64 {
            let seed = slice_prefix(bytes, 32);
            let k = Keypair::from_seed(seed.as_slice());
            if bytes_equal(k.public.bytes.as_slice(), bytes, 32) {
                Ok(k)
            } else {
                Err(KeyError::InvalidKeyBytes)
            }
        } else {
            Err(KeyError::InvalidKeyBytes)
        }
    }

    /// The public identifier.
    pub fn pubkey(&self) -> (r: Identifier)
        ensures
            r@ == self.public_view(),
    {
        Identifier { bytes: self.public.bytes.clone() }
    }

    /// The 64-byte transport form: secret seed then public identifier.
    pub fn to_bytes(&self) -> (r: Vec<u8>)
        requires
            self.wf(),
        ensures
            r@ == self.secret_view() + self.public_view(),
    {
        let mut r = self.secret.clone();
        let mut p = self.public.bytes.clone();
        r.append(&mut p);
        r
    }

    /// Signs a message; the signature is accepted under this keypair's
    /// public identifier.
    pub fn sign(&self, message: &[u8]) -> (r: Signature)
        requires
            self.wf(),
        ensures
            r@ == signature_of(self.secret_view(), message@),
            r.wf(),
            signature_accepts(r@, message@, self.public_view()),
    {
        Signature { bytes: ed25519_sign(self.secret.as_slice(), message) }
    }
}

/// Checks a signature against a message and a claimed public identifier.
pub fn verify(sig: &Signature, message: &[u8], id: &Identifier) -> (r: bool)
    requires
        sig.wf(),
    ensures
        r == signature_accepts(sig@, message@, id@),
{
    ed25519_verify(sig.bytes.as_slice(), message, id.bytes.as_slice())
}

#[derive(Clone, Copy, Debug, PartialEq, Eq)]
pub enum KeyError {
    /// The bytes have a length other than 32 or 64, or their public half is
    /// not the one derived from their secret half.
    InvalidKeyBytes,
    /// Every seed drawn gave an all-zero identifier.
    Degenerate,
}

pub open spec fn is_zero(b: Seq<u8>) -> bool {
    forall|i: int| 0 <= i < b.len() ==> b[i] == 0
}

/// Which raw encodings make a keypair.
pub open spec fn secret_bytes_valid(b: Seq<u8>) -> bool {
    b.len() == 32 || (b.len() == 64 && b.subrange(32, 64) == derived_public(b.subrange(0, 32)))
}

fn all_zero(b: &[u8]) -> (r: bool)
    ensures
        r == is_zero(b@),
{
    let mut i: usize = 0;
    while i < b.len()
        invariant
            i <= b@.len(),
            forall|j: int| 0 <= j < i ==> b@[j] == 0,
        decreases b@.len() - i,
    {
        if b[i] != 0 {
            return false;
        }
        i = i + 1;
    }
    true
}

fn slice_prefix(b: &[u8], n: usize) -> (r: Vec<u8>)
    requires
        n <= b@.len(),
    ensures
        r@ == b@.subrange(0, n as int),
{
    let mut r: Vec<u8> = Vec::new();
    let mut i: usize = 0;
    while i < n
        invariant
            i <= n <= b@.len(),
            r@ == b@.subrange(0, i as int),
        decreases n - i,
    {
        r.push(b[i]);
        i = i + 1;
    }
    r
}

/// Whether `a` equals the part of `b` that starts at `off` and has `a`'s length.
fn bytes_equal(a: &[u8], b: &[u8], off: usize) -> (r: bool)
    requires
        off + a@.len() == b@.len(),
    ensures
        r == (a@ == b@.subrange(off as int, b@.len() as int)),
{
    let n = b.len();
    let mut i: usize = 0;
    while i < a.len()
        invariant
            i <= a@.len(),
            n == b@.len(),
            off + a@.len() == b@.len(),
            forall|j: int| 0 <= j < i ==> a@[j] == b@[off + j],
        decreases a@.len() - i,
    {
        if a[i] != b[off + i] {
            assert(a@[i as int] != b@.subrange(off as int, b@.len() as int)[i as int]);
            return false;
        }
        i = i + 1;
    }
    assert(a@ =~= b@.subrange(off as int, b@.len() as int));
    true
}

/// Rebuilding from the same valid bytes always yields the same public
/// identifier: the one derived from the first 32 bytes.
pub proof fn lemma_from_secret_bytes_deterministic(b: Seq<u8>, k1: Keypair, k2: Keypair)
    requires
        secret_bytes_valid(b),
        k1.wf(),
        k2.wf(),
        k1.secret_view() == b.subrange(0, 32),
        k2.secret_view() == b.subrange(0, 32),
    ensures
        k1.public_view() == k2.public_view(),
        k1.public_view() == derived_public(b.subrange(0, 32)),
        b.len() == 64 ==> k1.public_view() == b.subrange(32, 64),
{
}

} // verus!
