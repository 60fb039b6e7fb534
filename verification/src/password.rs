use vstd::prelude::*;

use argon2::password_hash::rand_core::RngCore;
use argon2::password_hash::{PasswordHasher, PasswordVerifier};

verus! {

/// Whether `stored` parses as a PHC password-hash string, as
/// `PasswordHash::new` decides it.
pub uninterp spec fn phc_well_formed(stored: Seq<char>) -> bool;

/// The PHC string that Argon2 with its default parameters makes of `password`
/// and the salt bytes `salt`.
pub uninterp spec fn argon2_phc(password: Seq<char>, salt: Seq<u8>) -> Seq<char>;

/// Whether Argon2 with its default parameters accepts `password` against the
/// PHC string `stored`.
pub uninterp spec fn argon2_accepts(stored: Seq<char>, password: Seq<char>) -> bool;

#[verifier::external_type_specification]
#[verifier::external_body]
pub struct ExPasswordHashError(argon2::password_hash::Error);

/// Why a password could not be hashed.
#[derive(Debug, Clone)]
pub enum PasswordHashError {
    HashingFailed,
}

/// How every PHC string of Argon2 with its default parameters begins: the
/// Argon2id algorithm, version 19, 19456 KiB of memory, 2 passes, 1 lane.
pub open spec fn argon2id_default_prefix() -> Seq<char> {
    "$argon2id$v=19$m=19456,t=2,p=1$"@
}

/// Whether the text `t` begins with `prefix`.
pub open spec fn starts_with(t: Seq<char>, prefix: Seq<char>) -> bool {
    prefix.len() <= t.len() && t.subrange(0, prefix.len() as int) == prefix
}

/// Whether `stored` cannot be a PHC string because it does not begin with `$`.
pub open spec fn lacks_phc_start(stored: Seq<char>) -> bool {
    stored.len() == 0 || stored[0] != '$'
}

/// Whether Argon2 can hash `password`: its UTF-8 bytes number at most
/// `0xFFFF_FFFF`, Argon2's limit on a password's length.
pub open spec fn hashable(password: Seq<char>) -> bool {
    vstd::utf8::encode_utf8(password).len() <= 0xFFFF_FFFF
}

/// Whether the stored hash `stored` is well formed and accepts `provided`.
pub open spec fn password_matches(stored: Seq<char>, provided: Seq<char>) -> bool {
    phc_well_formed(stored) && argon2_accepts(stored, provided)
}

/// `PasswordHash::new(stored).is_ok()`: whether `stored` parses as a PHC
/// string, named `phc_well_formed`. The parser refuses an empty string and
/// one whose first field, before the first `$`, is not empty.
#[verifier::external_body]
fn phc_parses(stored: &str) -> (ok: bool)
    ensures
        ok == phc_well_formed(stored@),
        lacks_phc_start(stored@) ==> !ok,
{
    argon2::PasswordHash::new(stored).is_ok()
}

/// `Argon2::default().verify_password`, on `provided`'s bytes and on `stored`
/// parsed as a PHC string (which `requires` makes sure of): whether the
/// password matches, named `argon2_accepts`.
#[verifier::external_body]
fn argon2_verify(stored: &str, provided: &str) -> (ok: bool)
    requires
        phc_well_formed(stored@),
    ensures
        ok == argon2_accepts(stored@, provided@),
{
    let parsed = argon2::PasswordHash::new(stored).unwrap();
    argon2::Argon2::default().verify_password(provided.as_bytes(), &parsed).is_ok()
}

/// `OsRng.fill_bytes`: sixteen bytes from the operating system's random
/// source, the length that `SaltString::generate` uses. Nothing is stated of
/// them.
#[verifier::external_body]
fn random_salt_bytes() -> [u8; 16] {
    let mut bytes = [0u8; 16];
    argon2::password_hash::rand_core::OsRng.fill_bytes(&mut bytes);
    bytes
}

/// `Argon2::default().hash_password` on `password`'s bytes and on `salt`
/// encoded as a B64 salt string, as a PHC string. With a sixteen-byte salt and
/// the default parameters the only refusal is a password longer than
/// `0xFFFF_FFFF` bytes, so it succeeds exactly on the others. The string is a
/// function of the password and the salt, named `argon2_phc`; it begins with
/// the default algorithm, version and parameters; it parses, and Argon2
/// accepts the same password against it (verification recomputes the hash
/// with the salt and parameters that the string records).
#[verifier::external_body]
fn argon2_hash(password: &str, salt: &[u8; 16]) -> (r: Result<
    String,
    argon2::password_hash::Error,
>)
    ensures
        r is Ok <==> hashable(password@),
        r matches Ok(h) ==> h@ == argon2_phc(password@, salt@),
        r matches Ok(h) ==> starts_with(h@, argon2id_default_prefix()),
        r matches Ok(h) ==> phc_well_formed(h@) && argon2_accepts(h@, password@),
{
    let salt = argon2::password_hash::SaltString::encode_b64(salt)?;
    argon2::Argon2::default().hash_password(password.as_bytes(), &salt).map(|h| h.to_string())
}

/// Hashes a cleartext password into an Argon2id PHC string with a fresh
/// salt. It succeeds on every password of at most `0xFFFF_FFFF` bytes; a hash
/// that it returns is the Argon2id (version 19, default parameters) PHC string
/// of the password with some sixteen-byte salt, and verifies against the same
/// password.
pub fn hash_password(password: &str) -> (r: Result<String, PasswordHashError>)
    ensures
        r is Ok <==> hashable(password@),
        r matches Ok(h) ==> exists|salt: Seq<u8>|
            salt.len() == 16 && h@ == #[trigger] argon2_phc(password@, salt),
        r matches Ok(h) ==> starts_with(h@, argon2id_default_prefix()),
        r matches Ok(h) ==> password_matches(h@, password@),
{
    let salt = random_salt_bytes();
    match argon2_hash(password, &salt) {
        Ok(h) => Ok(h),
        Err(_) => Err(PasswordHashError::HashingFailed),
    }
}

/// Checks a cleartext password against a stored hash: false when the stored
/// hash does not parse (as when it does not begin with `$`), else whether
/// Argon2 accepts the password.
pub fn verify_password(stored_hash: &str, provided_password: &str) -> (ok: bool)
    ensures
        ok == password_matches(stored_hash@, provided_password@),
        lacks_phc_start(stored_hash@) ==> !ok,
{
    if !phc_parses(stored_hash) {
        return false;
    }
    argon2_verify(stored_hash, provided_password)
}

} // verus!
