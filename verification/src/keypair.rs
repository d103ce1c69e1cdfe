//! Ed25519 keypair generation.
//!
//! A keypair is held as plain bytes: the 32 secret bytes drawn from the
//! operating system's secure random source, and the 32 bytes of the
//! compressed public curve point derived from them.  The derivation itself
//! is done by the curve arithmetic crates behind trusted bindings; what the
//! library knows of it is that it is a pure function of the secret bytes.

use vstd::prelude::*;

verus! {

/// Number of keypairs generated and tested per round; batching amortizes the
/// cost of deriving the public points.
pub const BATCH_SIZE: usize = 100;

/// The compressed public point that the curve arithmetic derives from the
/// given secret bytes.  Derivation is deterministic (an SHA-512 expansion,
/// clamping, a fixed-base scalar multiplication and point compression), so
/// the encoding is a pure function of the secret bytes.
pub uninterp spec fn spec_public_key(secret: Seq<u8>) -> Seq<u8>;

/// An Ed25519 keypair: secret bytes and the derived compressed public point.
#[derive(Clone, Copy)]
pub struct KeyPair {
    pub secret_key: [u8; 32],
    pub public_key: [u8; 32],
}

impl KeyPair {
    /// The public bytes are exactly the ones derived from the secret bytes.
    pub open spec fn wf(self) -> bool {
        self.public_key@ == spec_public_key(self.secret_key@)
    }

    /// Builds the keypair belonging to the given secret bytes.
    pub fn from_secret(secret: [u8; 32]) -> (kp: KeyPair)
        ensures
            kp.secret_key == secret,
            kp.public_key@ == spec_public_key(secret@),
            kp.wf(),
    {
        let public_key = derive_public_key(&secret);
        KeyPair { secret_key: secret, public_key }
    }

    /// The 64-byte buffer from which an OpenSSH private-key structure is
    /// built: the secret bytes followed by the public bytes.
    pub fn to_openssh_bytes(&self) -> (r: Vec<u8>)
        ensures
            r@ == self.secret_key@ + self.public_key@,
    {
        let mut out: Vec<u8> = Vec::new();
        let mut i: usize = 0;
        while i < 32
            invariant
                i <= 32,
                out@ =~= self.secret_key@.take(i as int),
            decreases 32 - i,
        {
            out.push(self.secret_key[i]);
            i = i + 1;
        }
        let mut j: usize = 0;
        while j < 32
            invariant
                j <= 32,
                out@ =~= self.secret_key@ + self.public_key@.take(j as int),
            decreases 32 - j,
        {
            out.push(self.public_key[j]);
            j = j + 1;
        }
        proof {
            assert(out@ =~= self.secret_key@ + self.public_key@);
        }
        out
    }
}

/// The public encoding is a pure function of the secret bytes: two
/// well-formed keypairs built from the same secret bytes carry the same
/// public encoding.
pub proof fn lemma_public_key_deterministic(a: KeyPair, b: KeyPair)
    requires
        a.wf(),
        b.wf(),
        a.secret_key@ == b.secret_key@,
    ensures
        a.public_key@ == b.public_key@,
{
}

/// Relies on rand's `OsRng` (`RngCore::fill_bytes`): fills the buffer from
/// the operating system's secure random source.  The result is random, so
/// nothing is promised of its value.
#[verifier::external_body]
fn random_secret_bytes() -> [u8; 32] {
    let mut csprng = rand::rngs::OsRng;
    let mut secret = [0u8; 32];
    rand::RngCore::fill_bytes(&mut csprng, &mut secret);
    secret
}

/// Relies on ed25519_dalek's `ExpandedSecretKey::from` (SHA-512 expansion
/// and clamping of the secret bytes) and curve25519_dalek's
/// `EdwardsPoint::mul_base` and `compress`: each step reads only the secret
/// bytes, so the compressed point returned is a pure function of them.
#[verifier::external_body]
fn derive_public_key(secret: &[u8; 32]) -> (r: [u8; 32])
    ensures
        r@ == spec_public_key(secret@),
{
    let expanded = ed25519_dalek::hazmat::ExpandedSecretKey::from(secret);
    let point = curve25519_dalek::edwards::EdwardsPoint::mul_base(&expanded.scalar);
    point.compress().to_bytes()
}

/// Draws `batch_size` fresh keypairs from the secure random source.  Every
/// keypair returned is well formed: its public bytes are the ones derived
/// from its secret bytes.
pub fn generate_keypair_batch(batch_size: usize) -> (r: Vec<KeyPair>)
    ensures
        r@.len() == batch_size,
        forall|i: int| 0 <= i < r@.len() ==> (#[trigger] r@[i]).wf(),
{
    let mut out: Vec<KeyPair> = Vec::new();
    let mut i: usize = 0;
    while i < batch_size
        invariant
            i <= batch_size,
            out@.len() == i,
            forall|k: int| 0 <= k < out@.len() ==> (#[trigger] out@[k]).wf(),
        decreases batch_size - i,
    {
        let secret = random_secret_bytes();
        out.push(KeyPair::from_secret(secret));
        i = i + 1;
    }
    out
}

} // verus!
