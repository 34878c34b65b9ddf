use backend::auth::{
    hash_password, hash_with_salt, hashing_outcome, login_outcome, AuthError, Role, User,
};

const STORED: &str =
    "$pbkdf2-sha256$i=4096,l=32$c2FsdA$xeR41ZKIyEGqUw22hFxMjZYok6ABzk4RpJY4c6qYE0o";

fn user_with_hash(hash: &str) -> User {
    User::from_parts(7, "lisan".to_string(), hash.to_string(), Role::Admin)
}

#[test]
fn role_numbers() {
    assert_eq!(Role::User.as_u32(), 0);
    assert_eq!(Role::Admin.as_u32(), 1);
    assert_eq!(Role::Owner.as_u32(), 2);
    assert_eq!(Role::from_u32(0), Role::User);
    assert_eq!(Role::from_u32(1), Role::Admin);
    assert_eq!(Role::from_u32(2), Role::Owner);
}

#[test]
fn role_round_trip() {
    for role in [Role::User, Role::Admin, Role::Owner] {
        assert_eq!(Role::from_u32(role.as_u32()), role);
    }
    for code in 0..3u32 {
        assert_eq!(Role::from_u32(code).as_u32(), code);
    }
}

#[test]
fn roles_are_ordered() {
    assert!(Role::User < Role::Admin);
    assert!(Role::Admin < Role::Owner);
}

#[test]
fn user_columns() {
    let u = user_with_hash(STORED);
    assert_eq!(u.id, 7);
    assert_eq!(u.name, "lisan");
    assert_eq!(u.role, Role::Admin);
    assert_eq!(u.get_id(), 7);
    assert_eq!(u.get_role(), Some(Role::Admin));
    assert_eq!(u.get_password_hash(), STORED.as_bytes().to_vec());
    let copy = u.clone();
    assert_eq!(copy.get_id(), 7);
    assert_eq!(copy.name, "lisan");
    assert_eq!(copy.get_password_hash(), STORED.as_bytes().to_vec());
}

#[test]
fn verdicts() {
    assert_eq!(login_outcome(Some(true)), Ok(()));
    assert_eq!(login_outcome(Some(false)), Err(AuthError::InvalidPassword));
    assert_eq!(login_outcome(None), Err(AuthError::MalformedHash));
}

#[test]
fn hashing_outcomes() {
    assert_eq!(hashing_outcome(Some("$x$y".to_string())), Ok("$x$y".to_string()));
    assert_eq!(hashing_outcome(None), Err(AuthError::HashingFailed));
}

#[test]
fn right_password_is_let_in() {
    assert_eq!(user_with_hash(STORED).verify("password"), Ok(()));
}

#[test]
fn wrong_password_is_refused() {
    let u = user_with_hash(STORED);
    assert_eq!(u.verify("Password"), Err(AuthError::InvalidPassword));
    assert_eq!(u.verify(""), Err(AuthError::InvalidPassword));
    assert_eq!(u.verify(STORED), Err(AuthError::InvalidPassword));
}

#[test]
fn unreadable_hash_refuses_every_password() {
    for hash in ["", "password", "pbkdf2-sha256$i=4096", "$", "$pbkdf2-sha256$$$$$"] {
        assert_eq!(
            user_with_hash(hash).verify("password"),
            Err(AuthError::MalformedHash),
            "{}",
            hash
        );
    }
}

#[test]
fn hash_of_a_password_and_a_salt() {
    assert_eq!(
        hash_with_salt("hunter42", "c2FsdHNhbHRzYWx0c2FsdA"),
        Ok("$pbkdf2-sha256$i=600000,l=32$c2FsdHNhbHRzYWx0c2FsdA$I7ITr6FfDKPyqdC49Hs7eIOgiD0bpaqfqXeyN9vcfPE"
            .to_string())
    );
}

#[test]
fn salt_that_cannot_be_read_fails_the_hashing() {
    assert_eq!(hash_with_salt("hunter42", ""), Err(AuthError::HashingFailed));
    assert_eq!(hash_with_salt("hunter42", "abc"), Err(AuthError::HashingFailed));
    assert_eq!(hash_with_salt("hunter42", "01234_abcd"), Err(AuthError::HashingFailed));
}

#[test]
fn fresh_hash_is_a_phc_string() {
    let hash = hash_password("hunter42").unwrap();
    assert!(hash.starts_with("$pbkdf2-sha256$i=600000,l=32$"), "{}", hash);
    assert_ne!(hash, "hunter42");
}

#[test]
fn auth_error_messages() {
    assert_eq!(AuthError::HashingFailed.message(), "Authentication hashing failed");
    assert_eq!(AuthError::MalformedHash.message(), "Failed to parse password hash");
    assert_eq!(AuthError::InvalidPassword.message(), "Failed to login user! Invalid password");
}
