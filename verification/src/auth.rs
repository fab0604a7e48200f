//! Challenge/response authenticator for the handshake.
//!
//! The server issues a random 128-bit nonce; the client answers with a keyed
//! one-way proof over it, so the secret itself never crosses the wire and a
//! captured proof is useless against any other nonce. The secret is compared
//! only through `verify`, never directly.

use vstd::prelude::*;

use crate::codec::be128;
use crate::codec::u128_bytes;

verus! {

/// The HMAC-SHA256 tag of a message under a key: a fixed function of the two
/// arguments alone, left unspecified beyond that.
pub uninterp spec fn hmac256_of(key: Seq<u8>, msg: Seq<u8>) -> Seq<u8>;

/// Relies on hmac::Hmac<sha2::Sha256>: the tag is a deterministic function
/// of key and message alone, is 32 bytes long, and `new_from_slice` accepts
/// a key of any length for this construction.
#[verifier::external_body]
fn hmac_sha256(key: &[u8], msg: &[u8]) -> (r: Vec<u8>)
    ensures
        r@ == hmac256_of(key@, msg@),
        r@.len() == 32,
{
    let mut mac = <hmac::Hmac<sha2::Sha256> as hmac::Mac>::new_from_slice(key)
        .expect("HMAC accepts a key of any length");
    hmac::Mac::update(&mut mac, msg);
    hmac::Mac::finalize(mac).into_bytes().to_vec()
}

/// Relies on rand::random: a value drawn from the thread-local generator.
/// Nothing is promised of it.
pub assume_specification<T>[ rand::random::<T> ]() -> (r: T)
    where
        rand::distributions::Standard: rand::distributions::Distribution<T>,
;

/// A fresh random nonce for one handshake challenge.
pub fn challenge() -> u128 {
    rand::random::<u128>()
}

/// A fresh random connection id for one announced public connection.
pub fn fresh_connection_id() -> u128 {
    rand::random::<u128>()
}

/// The proof a client derives from its secret and a server nonce.
pub open spec fn spec_proof_of(secret: Seq<u8>, nonce: u128) -> Seq<u8> {
    hmac256_of(secret, be128(nonce))
}

/// Whether a presented proof is the one the secret derives from the nonce.
pub open spec fn spec_verify(secret: Seq<u8>, nonce: u128, presented: Seq<u8>) -> bool {
    presented == spec_proof_of(secret, nonce)
}

/// Derive the proof for a nonce from the shared secret.
pub fn prove(secret: &[u8], nonce: u128) -> (r: Vec<u8>)
    ensures
        r@ == spec_proof_of(secret@, nonce),
        r@.len() == 32,
{
    let nb = u128_bytes(nonce);
    hmac_sha256(secret, nb.as_slice())
}

/// Compare two byte strings.
fn bytes_eq(a: &[u8], b: &[u8]) -> (r: bool)
    ensures
        r == (a@ == b@),
{
    if a.len() != b.len() {
        assert(a@ != b@);
        return false;
    }
    let n = a.len();
    let mut k: usize = 0;
    while k < n
        invariant
            n == a@.len() == b@.len(),
            k <= n,
            forall|j: int| 0 <= j < k ==> a@[j] == b@[j],
        decreases n - k,
    {
        if a[k] != b[k] {
            assert(a@ != b@);
            return false;
        }
        k = k + 1;
    }
    assert(a@ =~= b@);
    true
}

/// Check a presented proof against the secret and the nonce it was issued
/// for. True exactly when the proof is the one `prove` derives.
pub fn verify(secret: &[u8], nonce: u128, presented: &[u8]) -> (r: bool)
    ensures
        r == spec_verify(secret@, nonce, presented@),
{
    let expected = prove(secret, nonce);
    bytes_eq(expected.as_slice(), presented)
}

/// A proof derived by `prove` always verifies against the same secret and
/// nonce: the round trip of the handshake's challenge/response never rejects
/// an honest client.
pub proof fn lemma_prove_verifies(secret: Seq<u8>, nonce: u128)
    ensures
        spec_verify(secret, nonce, spec_proof_of(secret, nonce)),
{
}

} // verus!
