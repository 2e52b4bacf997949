//! Salted password hashing and verification.
//!
//! A `Password` credential pairs a salt with the Argon2 digest of the
//! plaintext under that salt. Hashing a password draws a fresh 256-byte
//! random salt on every call, so two credentials for the same plaintext
//! differ; verification recomputes the digest under the stored salt.

use vstd::prelude::*;
use crate::security::generate_salt;

verus! {

/// A salted, one-way-hashed password credential.
#[derive(Debug, PartialEq)]
pub struct Password {
    pub salt: Vec<u8>,
    pub hash: Vec<u8>,
}

/// The mathematical content of a credential: its salt and digest bytes.
#[verifier::ext_equal]
pub struct PasswordView {
    pub salt: Seq<u8>,
    pub hash: Seq<u8>,
}

impl View for Password {
    type V = PasswordView;

    open spec fn view(&self) -> PasswordView {
        PasswordView { salt: self.salt@, hash: self.hash@ }
    }
}

impl Clone for Password {
    fn clone(&self) -> (r: Self)
        ensures
            r@ == self@,
    {
        let salt = clone_bytes(&self.salt);
        let hash = clone_bytes(&self.hash);
        Password { salt, hash }
    }
}

/// A copy of a byte vector.
pub(crate) fn clone_bytes(v: &Vec<u8>) -> (r: Vec<u8>)
    ensures
        r@ == v@,
{
    let mut out: Vec<u8> = Vec::new();
    let mut i: usize = 0;
    while i < v.len()
        invariant
            i <= v@.len(),
            out@ == v@.subrange(0, i as int),
        decreases v@.len() - i,
    {
        out.push(v[i]);
        proof {
            assert(out@ =~= v@.subrange(0, i + 1 as int));
        }
        i = i + 1;
    }
    proof {
        assert(out@ =~= v@);
    }
    out
}

/// The raw Argon2 digest of `password` under `salt`, with this library's
/// fixed key-derivation parameters and a digest of `hash_len` bytes. The
/// digest is a pure function of these three arguments.
pub uninterp spec fn argon2_digest(password: Seq<u8>, salt: Seq<u8>, hash_len: nat) -> Seq<u8>;

/// Relies on `argon2::hash_raw` with the crate's default configuration:
/// the digest is deterministic in (password, salt), is 32 bytes long, and
/// the call fails exactly when the salt is shorter than 8 bytes.
#[verifier::external_body]
fn argon2_hash(password: &[u8], salt: &[u8]) -> (r: Option<Vec<u8>>)
    requires
        password@.len() <= 0xFFFF_FFFF,
        salt@.len() <= 0xFFFF_FFFF,
    ensures
        r is Some <==> salt@.len() >= 8,
        r is Some ==> r.unwrap()@ == argon2_digest(password@, salt@, 32) && r.unwrap()@.len() == 32,
{
    argon2::hash_raw(password, salt, &argon2::Config::default()).ok()
}

/// Relies on `argon2::verify_raw` with the crate's default configuration:
/// it recomputes the digest of (password, salt) at the given hash's length
/// and compares; the call fails exactly when the salt is shorter than 8
/// bytes or the hash shorter than 4.
#[verifier::external_body]
fn argon2_verify(password: &[u8], salt: &[u8], hash: &[u8]) -> (r: Option<bool>)
    requires
        password@.len() <= 0xFFFF_FFFF,
        salt@.len() <= 0xFFFF_FFFF,
        hash@.len() <= 0xFFFF_FFFF,
    ensures
        r is Some <==> (salt@.len() >= 8 && hash@.len() >= 4),
        r is Some ==> r.unwrap() == (hash@ == argon2_digest(password@, salt@, hash@.len())),
{
    argon2::verify_raw(password, salt, hash, &argon2::Config::default()).ok()
}

/// `password` is the plaintext behind credential `cred`: the stored hash is
/// the digest of the plaintext under the stored salt (and all lengths are
/// within the key-derivation function's bounds).
pub open spec fn password_matches(password: Seq<u8>, cred: PasswordView) -> bool {
    &&& password.len() <= 0xFFFF_FFFF
    &&& 8 <= cred.salt.len() <= 0xFFFF_FFFF
    &&& 4 <= cred.hash.len() <= 0xFFFF_FFFF
    &&& cred.hash == argon2_digest(password, cred.salt, cred.hash.len() as nat)
}

/// A credential for `password` under a fresh random salt. The salt is drawn
/// anew on every call, so repeated calls give distinct credentials with
/// overwhelming probability; nothing ties the two calls' salts together.
pub fn hash_password(password: &[u8]) -> (r: Password)
    requires
        password@.len() <= 0xFFFF_FFFF,
    ensures
        r@.salt.len() == 256,
        r@.hash == argon2_digest(password@, r@.salt, 32),
        r@.hash.len() == 32,
        password_matches(password@, r@),
{
    let salt = generate_salt(256);
    let hash = match argon2_hash(password, salt.as_slice()) {
        Some(h) => h,
        None => {
            proof {
                assert(false);
            }
            Vec::new()
        },
    };
    Password { salt, hash }
}

/// The deterministic variant: the caller supplies the salt, and identical
/// (salt, password) inputs give identical credentials. Intended for test
/// vectors, never for live signup.
pub fn hash_password_salt(salt: &[u8], password: &[u8]) -> (r: Password)
    requires
        8 <= salt@.len() <= 0xFFFF_FFFF,
        password@.len() <= 0xFFFF_FFFF,
    ensures
        r@.salt == salt@,
        r@.hash == argon2_digest(password@, salt@, 32),
        r@.hash.len() == 32,
        password_matches(password@, r@),
{
    let hash = match argon2_hash(password, salt) {
        Some(h) => h,
        None => {
            proof {
                assert(false);
            }
            Vec::new()
        },
    };
    let mut salt_copy: Vec<u8> = Vec::new();
    let mut i: usize = 0;
    while i < salt.len()
        invariant
            i <= salt@.len(),
            salt_copy@ == salt@.subrange(0, i as int),
        decreases salt@.len() - i,
    {
        salt_copy.push(salt[i]);
        proof {
            assert(salt_copy@ =~= salt@.subrange(0, i + 1 as int));
        }
        i = i + 1;
    }
    proof {
        assert(salt_copy@ =~= salt@);
    }
    Password { salt: salt_copy, hash }
}

/// Whether `password` is the plaintext behind `target`. Never panics: any
/// out-of-bounds length or key-derivation failure yields `false`, as does a
/// wrong password.
pub fn is_correct_password(password: &[u8], target: &Password) -> (r: bool)
    ensures
        r == password_matches(password@, target@),
{
    if password.len() as u64 > 0xFFFF_FFFF {
        return false;
    }
    let salt_len = target.salt.len() as u64;
    if salt_len < 8 || salt_len > 0xFFFF_FFFF {
        return false;
    }
    let hash_len = target.hash.len() as u64;
    if hash_len < 4 || hash_len > 0xFFFF_FFFF {
        return false;
    }
    match argon2_verify(password, target.salt.as_slice(), target.hash.as_slice()) {
        Some(b) => b,
        None => false,
    }
}

/// Salted hashing is deterministic: two credentials derived from the same
/// salt and the same password are equal, in salt and in digest.
pub proof fn lemma_hash_with_salt_deterministic(
    salt: Seq<u8>,
    password: Seq<u8>,
    c1: PasswordView,
    c2: PasswordView,
)
    requires
        c1.salt == salt,
        c1.hash == argon2_digest(password, salt, 32),
        c2.salt == salt,
        c2.hash == argon2_digest(password, salt, 32),
    ensures
        c1 == c2,
{
    assert(c1 =~= c2);
}

/// Verification round-trip: a credential whose hash is the digest of
/// `password` under its salt verifies against `password`.
pub proof fn lemma_verify_roundtrip(password: Seq<u8>, cred: PasswordView)
    requires
        password.len() <= 0xFFFF_FFFF,
        8 <= cred.salt.len() <= 0xFFFF_FFFF,
        cred.hash.len() == 32,
        cred.hash == argon2_digest(password, cred.salt, 32),
    ensures
        password_matches(password, cred),
{
}

} // verus!
