//! Password hashes: argon2id for new ones, bcrypt accepted from older
//! accounts and migrated on login.

use argon2::{Argon2, PasswordHasher, PasswordVerifier};
use vstd::prelude::*;

use crate::text::{has_prefix, starts_with};

verus! {

#[verifier::external_type_specification]
#[verifier::external_body]
pub struct ExBcryptError(bcrypt::BcryptError);

#[verifier::external_type_specification]
#[verifier::external_body]
pub struct ExPasswordHashError(argon2::password_hash::Error);

#[verifier::external_type_specification]
#[verifier::external_body]
pub struct ExPasswordHash(argon2::PasswordHash);

/// The hash is in bcrypt's format: it starts with `$2b$`, `$2a$` or `$2y$`.
pub open spec fn is_bcrypt_text(hash: Seq<char>) -> bool {
    has_prefix(hash, "$2b$"@) || has_prefix(hash, "$2a$"@) || has_prefix(hash, "$2y$"@)
}

/// The hash is an argon2id PHC string.
pub open spec fn is_argon2id_text(hash: Seq<char>) -> bool {
    has_prefix(hash, "$argon2id$"@)
}

/// What `bcrypt::verify(password, hash)` decides: `Some(matches)`, or
/// `None` when it fails.
pub uninterp spec fn bcrypt_verdict(password: Seq<char>, hash: Seq<char>) -> Option<bool>;

/// Whether `PasswordHash::new(hash)` reads `hash` as a PHC string.
pub uninterp spec fn phc_parses(hash: Seq<char>) -> bool;

/// Whether argon2 (with default parameters for the hasher) accepts
/// `password` against the PHC string `hash`.
pub uninterp spec fn argon2_accepts(password: Seq<char>, hash: Seq<char>) -> bool;

/// Calls `bcrypt::verify`. Its result depends on the password and the hash
/// alone; the crate refuses, before anything else, a hash that is not 60
/// ASCII characters.
#[verifier::external_body]
pub fn verify_bcrypt(password: &str, hash: &str) -> (r: Result<bool, bcrypt::BcryptError>)
    ensures
        match r {
            Ok(b) => bcrypt_verdict(password@, hash@) == Some(b),
            Err(_) => bcrypt_verdict(password@, hash@) is None,
        },
        !(hash@.len() == 60 && vstd::string::is_ascii(hash)) ==> r is Err,
{
    bcrypt::verify(password, hash)
}

/// Calls `Argon2::default().hash_password` with a fresh random salt and
/// writes the hash as a PHC string. The salt is random, so nothing pins the
/// text; argon2's source shows that a hash it returns is an `argon2id` PHC
/// string that reads back and that the same password verifies against.
/// Whether it fails (an RNG error) is not stated.
#[verifier::external_body]
pub fn hash_password(password: &str) -> (r: Result<String, argon2::password_hash::Error>)
    ensures
        r matches Ok(h) ==> is_argon2id_text(h@) && phc_parses(h@) && argon2_accepts(
            password@,
            h@,
        ),
{
    match Argon2::default().hash_password(password.as_bytes()) {
        Ok(hash) => Ok(hash.to_string()),
        Err(e) => Err(e),
    }
}

/// Calls `PasswordHash::new`, which reads a PHC string, and turns its error
/// into the hashing error as `?` does; the crate refuses an empty text or
/// one that does not start with `$`.
#[verifier::external_body]
fn parse_password_hash(hash: &str) -> (r: Result<argon2::PasswordHash, argon2::password_hash::Error>)
    ensures
        r is Ok <==> phc_parses(hash@),
        !(hash@.len() > 0 && hash@[0] == '$') ==> r is Err,
{
    match argon2::PasswordHash::new(hash) {
        Ok(parsed) => Ok(parsed),
        Err(e) => Err(e.into()),
    }
}

/// Calls `Argon2::default().verify_password` on the PHC string `hash`; it
/// reads the string first, so it accepts only strings that read.
#[verifier::external_body]
fn argon2_check(password: &str, hash: &str) -> (ok: bool)
    ensures
        ok == argon2_accepts(password@, hash@),
        ok ==> phc_parses(hash@),
{
    Argon2::default().verify_password(password.as_bytes(), hash).is_ok()
}

/// The text of a bcrypt failure (its `Display`); nothing is stated of it.
#[verifier::external_body]
fn bcrypt_error_text(e: &bcrypt::BcryptError) -> String {
    e.to_string()
}

/// The texts that `password_hash::Error`'s `Display` writes: one fixed
/// text per variant, and `invalid parameter: ` followed by the parameter's
/// quoted name for `ParamInvalid`.
pub open spec fn is_hash_error_text(t: Seq<char>) -> bool {
    ||| t == "unsupported algorithm"@
    ||| t == "cryptographic error"@
    ||| t == "invalid encoding"@
    ||| t == "internal password hashing algorithm error"@
    ||| t == "out of memory"@
    ||| t == "password hash output size invalid"@
    ||| has_prefix(t, "invalid parameter: "@)
    ||| t == "invalid parameters"@
    ||| t == "invalid password"@
    ||| t == "rng failure"@
    ||| t == "invalid salt"@
    ||| t == "invalid algorithm version"@
}

/// The text of an argon2 failure: `to_string`, through the error's
/// `Display`, which writes one of the texts of `is_hash_error_text`.
#[verifier::external_body]
fn password_hash_error_text(e: &argon2::password_hash::Error) -> (s: String)
    ensures
        is_hash_error_text(s@),
{
    e.to_string()
}

/// Checks `password` against the argon2 PHC string `hash`: fails when the
/// hash does not read, else tells whether it matches.
pub fn verify_password(password: &str, hash: &str) -> (r: Result<
    bool,
    argon2::password_hash::Error,
>)
    ensures
        r is Err <==> !phc_parses(hash@),
        r matches Ok(b) ==> b == argon2_accepts(password@, hash@),
{
    match parse_password_hash(hash) {
        Err(e) => Err(e),
        Ok(_) => Ok(argon2_check(password, hash)),
    }
}

/// Whether `hash` is in bcrypt's format.
pub fn is_bcrypt_hash(hash: &str) -> (b: bool)
    ensures
        b == is_bcrypt_text(hash@),
{
    starts_with(hash, "$2b$") || starts_with(hash, "$2a$") || starts_with(hash, "$2y$")
}

/// The outcome of checking a password at login.
#[derive(Debug)]
pub struct VerifyResult {
    /// The password matches the stored hash.
    pub is_valid: bool,
    /// The stored hash is bcrypt and should be replaced by `new_hash`.
    pub needs_rehash: bool,
    /// The argon2id hash that replaces a bcrypt one.
    pub new_hash: Option<String>,
}

/// An argon2id PHC string is not in bcrypt's format: a hash made by
/// migration is checked with argon2 at the next login and is not migrated
/// again.
pub proof fn lemma_argon2id_is_not_bcrypt(hash: Seq<char>)
    requires
        is_argon2id_text(hash),
    ensures
        !is_bcrypt_text(hash),
{
    reveal_strlit("$argon2id$");
    reveal_strlit("$2b$");
    reveal_strlit("$2a$");
    reveal_strlit("$2y$");
    assert(hash[1] == "$argon2id$"@[1]);
    assert(hash.take(4)[1] == hash[1]);
}

/// Checks `password` against the stored hash, detecting its format. A
/// bcrypt hash is checked with bcrypt and, when it matches, a fresh argon2id
/// hash of the password is made to replace it; any other hash is checked as
/// an argon2 PHC string. Failures of the hashing crates come back as their
/// text.
pub fn verify_and_maybe_rehash(password: &str, stored_hash: &str) -> (r: Result<VerifyResult, String>)
    ensures
        is_bcrypt_text(stored_hash@) ==> match bcrypt_verdict(password@, stored_hash@) {
            None => r is Err,
            Some(false) => r matches Ok(v) && !v.is_valid && !v.needs_rehash && v.new_hash is None,
            Some(true) => (r matches Err(t) && is_hash_error_text(t@)) || (r matches Ok(v)
                && v.is_valid && v.needs_rehash && (v.new_hash matches Some(h) && is_argon2id_text(
                h@) && phc_parses(h@) && argon2_accepts(password@, h@))),
        },
        !is_bcrypt_text(stored_hash@) ==> if !phc_parses(stored_hash@) {
            r matches Err(t) && is_hash_error_text(t@)
        } else {
            r matches Ok(v) && v.is_valid == argon2_accepts(password@, stored_hash@)
                && !v.needs_rehash && v.new_hash is None
        },
        r matches Ok(v) ==> (v.needs_rehash <==> v.new_hash is Some) && (v.needs_rehash
            ==> v.is_valid && is_bcrypt_text(stored_hash@)) && (v.new_hash matches Some(h)
            ==> !is_bcrypt_text(h@)),
{
    if is_bcrypt_hash(stored_hash) {
        let is_valid = match verify_bcrypt(password, stored_hash) {
            Ok(b) => b,
            Err(e) => {
                return Err(bcrypt_error_text(&e));
            },
        };
        if is_valid {
            let new_hash = match hash_password(password) {
                Ok(h) => h,
                Err(e) => {
                    return Err(password_hash_error_text(&e));
                },
            };
            proof {
                lemma_argon2id_is_not_bcrypt(new_hash@);
            }
            Ok(VerifyResult { is_valid: true, needs_rehash: true, new_hash: Some(new_hash) })
        } else {
            Ok(VerifyResult { is_valid: false, needs_rehash: false, new_hash: None })
        }
    } else {
        let is_valid = match verify_password(password, stored_hash) {
            Ok(b) => b,
            Err(e) => {
                return Err(password_hash_error_text(&e));
            },
        };
        Ok(VerifyResult { is_valid, needs_rehash: false, new_hash: None })
    }
}

/// At login a password that bcrypt accepts against a stored bcrypt hash is
/// valid and migrated: the answer carries a fresh argon2id hash that accepts
/// the same password. The only other answer is the failure of argon2's
/// hashing itself, given by its own text.
pub proof fn law_valid_bcrypt_password_is_migrated(
    password: &str,
    stored_hash: &str,
    r: Result<VerifyResult, String>,
)
    requires
        call_ensures(verify_and_maybe_rehash, (password, stored_hash), r),
        is_bcrypt_text(stored_hash@),
        bcrypt_verdict(password@, stored_hash@) == Some(true),
    ensures
        (r matches Ok(v) && v.is_valid && v.needs_rehash && (v.new_hash matches Some(h)
            && is_argon2id_text(h@) && !is_bcrypt_text(h@) && argon2_accepts(password@, h@)))
            || (r matches Err(t) && is_hash_error_text(t@)),
{
    match r {
        Ok(v) => {
            lemma_argon2id_is_not_bcrypt(v.new_hash->0@);
        },
        Err(t) => {},
    }
}

} // verus!
