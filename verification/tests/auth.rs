use rustboard_api::auth::extractor::{auth_user_from_claims, bearer_token};
use rustboard_api::auth::jwt::{claims_at, expiry, Claims};
use rustboard_api::auth::password::{
    hash_password, is_bcrypt_hash, verify_and_maybe_rehash, verify_bcrypt, verify_password,
};
use rustboard_api::domain::user::User;
use rustboard_api::error::AppError;

fn user() -> User {
    User {
        id: 42,
        email: "a@b.c".into(),
        password_hash: String::new(),
        display_name: "A".into(),
        role: "user".into(),
        created_at: 0,
        updated_at: 0,
    }
}

#[test]
fn bcrypt_formats_are_recognised() {
    assert!(is_bcrypt_hash("$2b$04$abc"));
    assert!(is_bcrypt_hash("$2a$x"));
    assert!(is_bcrypt_hash("$2y$"));
    assert!(!is_bcrypt_hash("$2x$04$abc"));
    assert!(!is_bcrypt_hash("$argon2id$v=19$"));
    assert!(!is_bcrypt_hash("$2b"));
}

#[test]
fn argon2_hash_verifies_the_same_password() {
    let h = hash_password("secret").unwrap();
    assert!(h.starts_with("$argon2id$"));
    assert!(!is_bcrypt_hash(&h));
    assert_eq!(verify_password("secret", &h).unwrap(), true);
    assert_eq!(verify_password("other", &h).unwrap(), false);
    assert!(verify_password("secret", "not a hash").is_err());
    assert!(verify_password("secret", "").is_err());
}

#[test]
fn bcrypt_verification() {
    let h = bcrypt::hash("pw", 4).unwrap();
    assert_eq!(verify_bcrypt("pw", &h).unwrap(), true);
    assert_eq!(verify_bcrypt("nope", &h).unwrap(), false);
    assert!(verify_bcrypt("pw", "$2b$short").is_err());
}

#[test]
fn bcrypt_hash_is_migrated_on_valid_login() {
    let old = bcrypt::hash("pw", 4).unwrap();
    let r = verify_and_maybe_rehash("pw", &old).unwrap();
    assert!(r.is_valid && r.needs_rehash);
    let new_hash = r.new_hash.unwrap();
    assert!(new_hash.starts_with("$argon2id$"));
    let again = verify_and_maybe_rehash("pw", &new_hash).unwrap();
    assert!(again.is_valid && !again.needs_rehash && again.new_hash.is_none());
}

#[test]
fn bcrypt_mismatch_is_not_migrated() {
    let old = bcrypt::hash("pw", 4).unwrap();
    let r = verify_and_maybe_rehash("bad", &old).unwrap();
    assert!(!r.is_valid && !r.needs_rehash && r.new_hash.is_none());
}

#[test]
fn broken_hashes_are_errors() {
    assert!(verify_and_maybe_rehash("pw", "$2b$04$broken").is_err());
    assert!(verify_and_maybe_rehash("pw", "plain text").is_err());
    let h = hash_password("pw").unwrap();
    let r = verify_and_maybe_rehash("wrong", &h).unwrap();
    assert!(!r.is_valid && !r.needs_rehash);
}

#[test]
fn expiry_is_minutes_after_now_in_seconds() {
    assert_eq!(expiry(1_000_500_000, 60), Some(1_000 + 3_600));
    assert_eq!(expiry(-1, 1), Some(59));
    assert_eq!(expiry(0, i64::MAX), None);
    assert_eq!(expiry(0, 200_000_000_000), None);
    assert_eq!(expiry(0, 136_837_781_279), Some(8_210_266_876_740));
    assert_eq!(expiry(59_000_000, 136_837_781_279), Some(8_210_266_876_799));
    assert_eq!(expiry(60_000_000, 136_837_781_279), None);
    let c = claims_at(&user(), 5_000_000, 1).unwrap();
    assert_eq!(c.sub, "42");
    assert_eq!(c.email, "a@b.c");
    assert_eq!(c.role, "user");
    assert_eq!(c.exp, 65);
    assert!(claims_at(&user(), 0, 200_000_000_000).is_none());
}

#[test]
fn bearer_tokens() {
    assert_eq!(bearer_token(Some("Bearer abc")).unwrap(), "abc");
    assert_eq!(bearer_token(Some("Bearer ")).unwrap(), "");
    assert!(matches!(bearer_token(Some("bearer abc")), Err(AppError::Unauthorized)));
    assert!(matches!(bearer_token(None), Err(AppError::Unauthorized)));
}

#[test]
fn claims_name_the_user() {
    let claims = Claims {
        sub: "17".into(),
        email: "e".into(),
        role: "admin".into(),
        exp: 0,
    };
    let u = auth_user_from_claims(claims).unwrap();
    assert_eq!((u.user_id, u.email.as_str(), u.role.as_str()), (17, "e", "admin"));
    let bad = Claims {
        sub: "x17".into(),
        email: "e".into(),
        role: "admin".into(),
        exp: 0,
    };
    assert!(matches!(auth_user_from_claims(bad), Err(AppError::Unauthorized)));
}
