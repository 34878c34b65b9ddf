//! Users, their roles, and the check of a password against the hash that
//! is stored for a user.
//!
//! Passwords are hashed with PBKDF2 and stored as PHC strings. The hashing
//! itself is done by the crates `pbkdf2` and `password_hash`; this module
//! decides what their results mean for a login.

use password_hash::{PasswordHash, PasswordHasher, PasswordVerifier, SaltString};
use pbkdf2::Pbkdf2;
use rand_core::OsRng;
use vstd::prelude::*;
use vstd::string::*;
use vstd::utf8::*;

verus! {

/// What a user may do. Each role includes the ones before it.
#[derive(Clone, Copy, Debug, PartialEq, Eq, Structural, PartialOrd)]
pub enum Role {
    User,
    Admin,
    Owner,
}

/// The number that a role is stored as.
pub open spec fn role_code(role: Role) -> u32 {
    match role {
        Role::User => 0,
        Role::Admin => 1,
        Role::Owner => 2,
    }
}

/// The role that a number stands for, for the numbers 0, 1 and 2.
pub open spec fn role_of(code: u32) -> Role {
    if code == 0 {
        Role::User
    } else if code == 1 {
        Role::Admin
    } else {
        Role::Owner
    }
}

impl Role {
    /// The number that the role is stored as.
    pub fn as_u32(&self) -> (code: u32)
        ensures
            code == role_code(*self),
    {
        match self {
            Role::User => 0,
            Role::Admin => 1,
            Role::Owner => 2,
        }
    }

    /// The role that is stored as `val`. Only 0, 1 and 2 stand for a role.
    pub fn from_u32(val: u32) -> (role: Role)
        requires
            val <= 2,
        ensures
            role == role_of(val),
    {
        if val == 0 {
            Role::User
        } else if val == 1 {
            Role::Admin
        } else {
            Role::Owner
        }
    }
}

/// A role is stored as 0, 1 or 2 and is read back from its number; each of
/// these numbers is the number of the role that it stands for.
pub proof fn law_role_round_trip(role: Role, code: u32)
    ensures
        role_code(role) <= 2,
        role_of(role_code(role)) == role,
        code <= 2 ==> role_code(role_of(code)) == code,
{
}

/// Why a password could not be hashed or a login was refused.
#[derive(Clone, Copy, Debug, PartialEq, Eq, Structural)]
pub enum AuthError {
    /// The password could not be hashed.
    HashingFailed,
    /// The stored hash is no PHC string.
    MalformedHash,
    /// The password is not the one that was hashed.
    InvalidPassword,
}

impl AuthError {
    /// The text of each error.
    pub open spec fn text(self) -> Seq<char> {
        match self {
            AuthError::HashingFailed => "Authentication hashing failed"@,
            AuthError::MalformedHash => "Failed to parse password hash"@,
            AuthError::InvalidPassword => "Failed to login user! Invalid password"@,
        }
    }

    /// A short description, for logs and responses.
    pub fn message(&self) -> (m: String)
        ensures
            m@ == self.text(),
    {
        match self {
            AuthError::HashingFailed => String::from_str("Authentication hashing failed"),
            AuthError::MalformedHash => String::from_str("Failed to parse password hash"),
            AuthError::InvalidPassword => String::from_str(
                "Failed to login user! Invalid password",
            ),
        }
    }
}

/// The PHC string that PBKDF2, with the parameters that the `pbkdf2` crate
/// recommends, makes of a password and a salt. `None` where it makes none:
/// the salt is not a B64 text of 4 to 64 characters, or the hashing fails.
pub uninterp spec fn pbkdf2_phc(password: Seq<char>, salt: Seq<char>) -> Option<Seq<char>>;

/// What PBKDF2 says of a password and a stored hash: `None` where the hash
/// is no PHC string, else whether the password yields the hash.
pub uninterp spec fn pbkdf2_verdict(password: Seq<char>, hash: Seq<char>) -> Option<bool>;

/// A fresh random salt, as `SaltString::generate` makes it from the
/// operating system's random numbers. Nothing is claimed of its value.
#[verifier::external_body]
fn random_salt() -> (salt: String) {
    SaltString::generate(&mut OsRng).as_str().to_string()
}

/// Hashes a password with `Pbkdf2.hash_password`, the salt being read with
/// `SaltString::from_b64`. The result is a function of the password and the
/// salt alone; the contract gives it a name and claims no more.
#[verifier::external_body]
fn pbkdf2_hash(password: &str, salt: &str) -> (phc: Option<String>)
    ensures
        text_of(phc) == pbkdf2_phc(password@, salt@),
{
    let salt = match SaltString::from_b64(salt) {
        Ok(salt) => salt,
        Err(_) => return None,
    };
    match Pbkdf2.hash_password(password.as_bytes(), &salt) {
        Ok(hash) => Some(hash.to_string()),
        Err(_) => None,
    }
}

/// Checks a password with `Pbkdf2.verify_password` against a stored hash,
/// which is read with `PasswordHash::new`. The result is a function of the
/// password and the hash alone; the contract gives it a name and claims no
/// more.
#[verifier::external_body]
fn pbkdf2_check(password: &str, hash: &str) -> (verdict: Option<bool>)
    ensures
        verdict == pbkdf2_verdict(password@, hash@),
{
    match PasswordHash::new(hash) {
        Ok(parsed) => Some(Pbkdf2.verify_password(password.as_bytes(), &parsed).is_ok()),
        Err(_) => None,
    }
}

/// What the making of a PHC string comes to: the string, or the failure to
/// make one.
pub open spec fn hashing_result(phc: Option<Seq<char>>, r: Result<String, AuthError>) -> bool {
    match phc {
        Some(text) => r matches Ok(hash) && hash@ == text,
        None => r == Err::<String, AuthError>(AuthError::HashingFailed),
    }
}

/// The view of a text that may be missing.
pub open spec fn text_of(text: Option<String>) -> Option<Seq<char>> {
    match text {
        Some(s) => Some(s@),
        None => None,
    }
}

/// What a verdict means for a login.
pub open spec fn login_result(verdict: Option<bool>) -> Result<(), AuthError> {
    match verdict {
        Some(true) => Ok(()),
        Some(false) => Err(AuthError::InvalidPassword),
        None => Err(AuthError::MalformedHash),
    }
}

/// What a verdict means for a login: a password that yields the stored
/// hash is let in, another one is refused, and so is every password where
/// the stored hash cannot be read.
pub fn login_outcome(verdict: Option<bool>) -> (r: Result<(), AuthError>)
    ensures
        r == login_result(verdict),
{
    match verdict {
        Some(true) => Ok(()),
        Some(false) => Err(AuthError::InvalidPassword),
        None => Err(AuthError::MalformedHash),
    }
}

/// What the making of a PHC string comes to: the string is handed on, and
/// a string that could not be made is a failed hashing.
pub fn hashing_outcome(phc: Option<String>) -> (r: Result<String, AuthError>)
    ensures
        hashing_result(text_of(phc), r),
{
    match phc {
        Some(text) => Ok(text),
        None => Err(AuthError::HashingFailed),
    }
}

/// Hashes a password with the given salt, into the PHC string that is
/// stored for a user.
pub fn hash_with_salt(password: &str, salt: &str) -> (r: Result<String, AuthError>)
    ensures
        hashing_result(pbkdf2_phc(password@, salt@), r),
{
    hashing_outcome(pbkdf2_hash(password, salt))
}

/// Hashes a password with a fresh random salt.
pub fn hash_password(password: &str) -> (r: Result<String, AuthError>)
    ensures
        exists|salt: Seq<char>| hashing_result(#[trigger] pbkdf2_phc(password@, salt), r),
{
    let salt = random_salt();
    hash_with_salt(password, salt.as_str())
}

/// A user as the table of users stores it.
#[derive(Debug)]
pub struct User {
    pub id: i64,
    pub name: String,
    pub role: Role,
    password_hash: String,
}

/// What a [`User`] holds.
pub struct UserView {
    pub id: i64,
    pub name: Seq<char>,
    pub role: Role,
    /// The PHC string that is stored for the user's password.
    pub password_hash: Seq<char>,
}

impl View for User {
    type V = UserView;

    closed spec fn view(&self) -> UserView {
        UserView {
            id: self.id,
            name: self.name@,
            role: self.role,
            password_hash: self.password_hash@,
        }
    }
}

impl Clone for User {
    fn clone(&self) -> (user: User)
        ensures
            user@ == self@,
    {
        User {
            id: self.id,
            name: self.name.clone(),
            role: self.role,
            password_hash: self.password_hash.clone(),
        }
    }
}

impl User {
    /// The user with these columns.
    pub fn from_parts(id: i64, name: String, password_hash: String, role: Role) -> (user: User)
        ensures
            user@ == (UserView { id, name: name@, role, password_hash: password_hash@ }),
    {
        User { id, name, role, password_hash }
    }

    /// Checks a password against the user's stored hash.
    pub fn verify(&self, password: &str) -> (r: Result<(), AuthError>)
        ensures
            r == login_result(pbkdf2_verdict(password@, self@.password_hash)),
    {
        login_outcome(pbkdf2_check(password, self.password_hash.as_str()))
    }

    /// The number that identifies the user.
    pub fn get_id(&self) -> (id: i64)
        ensures
            id == self@.id,
    {
        self.id
    }

    /// The bytes of the user's stored hash.
    pub fn get_password_hash(&self) -> (bytes: Vec<u8>)
        ensures
            bytes@ == encode_utf8(self@.password_hash),
    {
        self.password_hash.as_str().as_bytes_vec()
    }

    /// The user's role. Every user has one.
    pub fn get_role(&self) -> (role: Option<Role>)
        ensures
            role == Some(self@.role),
    {
        Some(self.role)
    }
}

} // verus!
