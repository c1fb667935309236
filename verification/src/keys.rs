//! Candidate key pairs: a 32-byte X25519 secret and the public key that
//! belongs to it.

use rand_core::OsRng;
use rand_core::RngCore;
use vstd::prelude::*;
use x25519_dalek::PublicKey;
use x25519_dalek::StaticSecret;

verus! {

/// The error of `rand_core`'s random sources. It is carried through as it
/// comes and only ever turned into its message.
#[verifier::external_type_specification]
#[verifier::external_body]
pub struct ExRandomError(rand_core::Error);

/// A freshly generated key pair. It is never changed after it was made.
pub struct Keypair {
    pub public_bytes: [u8; 32],
    pub private_bytes: [u8; 32],
}

/// The secure random source could not produce bytes. There is no weaker
/// source to fall back on: the caller has to give up.
pub struct EntropyFailure {
    /// What the operating system reported.
    pub reason: String,
}

/// The X25519 public key of a clamped secret: the secret times the base point
/// of Curve25519, as `x25519_dalek::PublicKey::from(&StaticSecret)` computes it.
pub uninterp spec fn x25519_public(secret: Seq<u8>) -> Seq<u8>;

/// Key clamping: the three lowest bits of the first byte and the highest bit
/// of the last byte are cleared, the second-highest bit of the last byte is
/// set.
pub open spec fn clamped(seed: Seq<u8>) -> Seq<u8>
    recommends
        seed.len() == 32,
{
    seed.update(0, seed[0] & 248).update(31, (seed[31] & 127) | 64)
}

/// Whether `secret` is a 32-byte secret in clamped form.
pub open spec fn is_clamped(secret: Seq<u8>) -> bool {
    &&& secret.len() == 32
    &&& secret[0] & 7 == 0
    &&& secret[31] & 128 == 0
    &&& secret[31] & 64 == 64
}

impl Keypair {
    /// The private half is a clamped secret and the public half is its
    /// X25519 public key.
    pub open spec fn is_valid(&self) -> bool {
        &&& is_clamped(self.private_bytes@)
        &&& self.public_bytes@ == x25519_public(self.private_bytes@)
    }
}

/// `RngCore::try_fill_bytes` on `rand_core::OsRng`: asks the operating system
/// for 32 random bytes. Nothing is promised of the bytes, and the call may
/// fail.
#[verifier::external_body]
fn fill_from_os(seed: &mut [u8; 32]) -> (outcome: Result<(), rand_core::Error>) {
    OsRng.try_fill_bytes(seed)
}

/// `StaticSecret::from` clamps the seed and keeps it as the secret;
/// `PublicKey::from(&StaticSecret)` multiplies the base point by that secret.
/// Both are handed back as bytes by their `to_bytes`.
#[verifier::external_body]
fn x25519_keypair(seed: [u8; 32]) -> (pair: Keypair)
    ensures
        pair.private_bytes@ == clamped(seed@),
        pair.public_bytes@ == x25519_public(pair.private_bytes@),
{
    let secret = StaticSecret::from(seed);
    let public = PublicKey::from(&secret);
    Keypair { public_bytes: public.to_bytes(), private_bytes: secret.to_bytes() }
}

/// Clamping yields a clamped secret, and leaves a clamped secret as it is.
pub proof fn lemma_clamped(seed: Seq<u8>)
    requires
        seed.len() == 32,
    ensures
        is_clamped(clamped(seed)),
        is_clamped(seed) ==> clamped(seed) == seed,
{
    let first = seed[0];
    let last = seed[31];
    assert((first & 248) & 7 == 0) by (bit_vector);
    assert(((last & 127) | 64) & 128 == 0) by (bit_vector);
    assert(((last & 127) | 64) & 64 == 64) by (bit_vector);
    if is_clamped(seed) {
        assert(first & 7 == 0 ==> first & 248 == first) by (bit_vector);
        assert(last & 128 == 0 && last & 64 == 64 ==> (last & 127) | 64 == last) by (bit_vector);
    }
}

impl Keypair {
    /// The key pair that belongs to a 32-byte seed.
    pub fn from_seed(seed: [u8; 32]) -> (pair: Keypair)
        ensures
            pair.private_bytes@ == clamped(seed@),
            pair.public_bytes@ == x25519_public(clamped(seed@)),
            pair.is_valid(),
    {
        proof {
            lemma_clamped(seed@);
        }
        x25519_keypair(seed)
    }

    /// Generates a key pair from the operating system's secure random source.
    /// Every call draws anew.
    pub fn generate() -> (outcome: Result<Keypair, EntropyFailure>)
        ensures
            outcome matches Ok(pair) ==> pair.is_valid(),
    {
        let mut seed = [0u8; 32];
        match fill_from_os(&mut seed) {
            Ok(()) => Ok(Keypair::from_seed(seed)),
            Err(error) => Err(EntropyFailure { reason: error.to_string() }),
        }
    }
}

} // verus!
