//! The identity of a node: the secret key by which the network knows it, and where that key comes
//! from.
use iroh_base::SecretKey;
use vstd::prelude::*;

use crate::bytes::copy_bytes;

verus! {

/// How many bytes a secret key has.
pub const SECRET_KEY_LENGTH: usize = 32;

/// A secret key of the `iroh-base` crate.
#[verifier::external_type_specification]
#[verifier::external_body]
pub struct ExSecretKey(SecretKey);

/// The bytes that a secret key holds, those that `SecretKey::to_bytes` gives.
pub uninterp spec fn secret_key_bytes(key: SecretKey) -> Seq<u8>;

/// `iroh_base::SecretKey::from_bytes` makes the secret key that holds these bytes.
pub assume_specification[ SecretKey::from_bytes ](bytes: &[u8; 32]) -> (r: SecretKey)
    ensures
        secret_key_bytes(r) == bytes@,
;

/// `iroh_base::SecretKey::to_bytes` gives the bytes that a secret key holds.
pub assume_specification[ SecretKey::to_bytes ](key: &SecretKey) -> (r: [u8; 32])
    ensures
        r@ == secret_key_bytes(*key),
;

/// `iroh_base::SecretKey::generate`, with the randomness of `rand::thread_rng`, makes a new secret
/// key. Its bytes are random, so nothing but their number is claimed of them.
#[verifier::external_body]
fn generate_secret_key() -> (r: SecretKey)
    ensures
        secret_key_bytes(r).len() == SECRET_KEY_LENGTH,
{
    SecretKey::generate(rand::thread_rng())
}

/// A new identity. Its bytes are random, so nothing but their number is said of them.
pub fn new_identity() -> (r: SecretKey)
    ensures
        secret_key_bytes(r).len() == SECRET_KEY_LENGTH,
{
    generate_secret_key()
}

/// The identity that was stored as `data`: the secret key of its first bytes, as many as a secret
/// key has.
pub fn restore_identity(data: &[u8]) -> (r: SecretKey)
    requires
        data@.len() >= SECRET_KEY_LENGTH,
    ensures
        secret_key_bytes(r) == data@.take(SECRET_KEY_LENGTH as int),
{
    let mut bytes: [u8; 32] = [0u8; 32];
    let mut i: usize = 0;
    while i < SECRET_KEY_LENGTH
        invariant
            i <= SECRET_KEY_LENGTH,
            SECRET_KEY_LENGTH == 32,
            data@.len() >= SECRET_KEY_LENGTH,
            forall|j: int| 0 <= j < i ==> bytes@[j] == data@[j],
        decreases SECRET_KEY_LENGTH - i,
    {
        bytes[i] = data[i];
        i = i + 1;
    }
    assert(bytes@ =~= data@.take(SECRET_KEY_LENGTH as int));
    SecretKey::from_bytes(&bytes)
}

/// The bytes as which an identity is stored.
pub fn stored_identity(key: &SecretKey) -> (r: Vec<u8>)
    ensures
        r@ == secret_key_bytes(*key),
        r@.len() == SECRET_KEY_LENGTH,
{
    copy_bytes(&key.to_bytes())
}

/// Where the identity of a node comes from. `P` is the path of a file.
#[derive(PartialEq, Eq, Debug)]
pub enum IdentitySource<P> {
    /// It is generated, and forgotten afterwards.
    Fresh,
    /// It is restored from the file.
    Load(P),
    /// It is generated and stored in the file, from which it will be restored the next time.
    Create(P),
}

impl<P> IdentitySource<P> {
    /// Where the identity comes from, given the file that was asked for, if any, and whether that
    /// file exists.
    pub fn choose_from(path: Option<P>, exists: bool) -> (r: IdentitySource<P>)
        ensures
            r == match path {
                None => IdentitySource::Fresh,
                Some(p) => if exists {
                    IdentitySource::Load(p)
                } else {
                    IdentitySource::Create(p)
                },
            },
    {
        match path {
            None => IdentitySource::Fresh,
            Some(p) => if exists {
                IdentitySource::Load(p)
            } else {
                IdentitySource::Create(p)
            },
        }
    }
}

/// An identity survives a restart: of a file that begins with the bytes as which a key is stored, the
/// key that is restored holds the same bytes, whatever may follow them in the file.
pub proof fn law_stored_identity_is_restored(
    key: SecretKey,
    trailing: Seq<u8>,
    restored: SecretKey,
)
    requires
        secret_key_bytes(key).len() == SECRET_KEY_LENGTH,
        secret_key_bytes(restored) == (secret_key_bytes(key) + trailing).take(
            SECRET_KEY_LENGTH as int,
        ),
    ensures
        secret_key_bytes(restored) == secret_key_bytes(key),
{
    assert((secret_key_bytes(key) + trailing).take(SECRET_KEY_LENGTH as int) =~= secret_key_bytes(
        key,
    ));
}

} // verus!
