//! Timing-safe credential verification. The password hash is verified
//! whether or not the username exists: an unknown username gets a fixed,
//! well-formed dummy hash, so the expensive key derivation runs either way
//! and response timing does not reveal whether a username is taken.

use vstd::prelude::*;
use vstd::string::StringExecFns;

use argon2::PasswordVerifier;

use crate::store::user_lookup;
use crate::store::Store;

verus! {

/// Why an authentication attempt failed. `InvalidCredentials` deliberately
/// merges "no such user" and "wrong password"; `UnexpectedError` is an
/// internal fault carrying a stage description, never a credentials hint.
#[derive(Debug, Clone, PartialEq, Eq)]
pub enum AuthError {
    InvalidCredentials,
    UnexpectedError(String),
}

/// A username and password pair, held only for the duration of a check.
#[derive(Debug)]
pub struct Credentials {
    pub username: String,
    pub password: String,
}

/// Whether `argon2::PasswordHash::new` accepts the string as a well-formed
/// PHC hash; the verdict depends on the string alone.
pub uninterp spec fn phc_string_parses(hash: Seq<char>) -> bool;

/// Whether `argon2::Argon2::verify_password` accepts the password against
/// the hash; the verdict depends on the two strings alone.
pub uninterp spec fn argon2_verify_ok(password: Seq<char>, hash: Seq<char>) -> bool;

/// How one password check can end.
#[derive(Debug, Clone, Copy, PartialEq, Eq, Structural)]
pub enum PasswordCheck {
    /// The stored hash is not a well-formed PHC string.
    MalformedHash,
    /// The hash is well-formed but the password does not verify against it.
    Mismatch,
    /// The password verifies against the hash.
    Match,
}

/// Relies on `argon2::PasswordHash::new` (parsing the PHC hash string) and
/// `argon2::Argon2::verify_password` with the default parameters: both are
/// deterministic in the password and the hash string, and the digest
/// comparison inside `verify_password` is constant-time.
#[verifier::external_body]
fn run_password_verification(password: &str, hash: &str) -> (r: PasswordCheck)
    ensures
        r == (if !phc_string_parses(hash@) {
            PasswordCheck::MalformedHash
        } else if argon2_verify_ok(password@, hash@) {
            PasswordCheck::Match
        } else {
            PasswordCheck::Mismatch
        }),
{
    match argon2::PasswordHash::new(hash) {
        Err(_) => PasswordCheck::MalformedHash,
        Ok(parsed) => {
            match argon2::Argon2::default().verify_password(password.as_bytes(), &parsed) {
                Ok(_) => PasswordCheck::Match,
                Err(_) => PasswordCheck::Mismatch,
            }
        },
    }
}

/// Check a username and password against the stored users. The password
/// hash verification runs exactly once on every path: on the stored hash
/// when the username exists, on a fixed well-formed dummy hash when it does
/// not, so both paths pay the same key-derivation cost. An unknown username
/// yields `InvalidCredentials` whatever the dummy verification returned.
pub fn authenticate(store: &Store, credentials: &Credentials) -> (r: Result<u64, AuthError>)
    ensures
        is_expected_auth_outcome(
            r,
            store.users@,
            credentials.username@,
            credentials.password@,
        ),
{
    let user = store.get_user(credentials.username.as_str());

    let (user_id, password_hash): (Option<u64>, String) = match user {
        Some(u) => (Some(u.user_id), u.password_hash.clone()),
        None => {
            let dummy = String::from_str(
                "$argon2id$v=19$m=15000,t=2,p=1$gZiV/M1gPc22ElAH/Jh1Hw$CWOrkoo7oJBQ/iyh7uJ0LO2aLEfrHwTWllSAxT0zRno",
            );
            (None, dummy)
        },
    };

    let check = run_password_verification(credentials.password.as_str(), password_hash.as_str());

    match user_id {
        None => Err(AuthError::InvalidCredentials),
        Some(id) => {
            match check {
                PasswordCheck::Match => Ok(id),
                PasswordCheck::Mismatch => Err(AuthError::InvalidCredentials),
                PasswordCheck::MalformedHash => Err(
                    AuthError::UnexpectedError(
                        String::from_str("Failed to parse the stored password hash."),
                    ),
                ),
            }
        },
    }
}

/// Whether the pair would authenticate: the username exists and the
/// password verifies against its well-formed stored hash.
pub open spec fn auth_ok(
    users: Seq<crate::store::UserRow>,
    username: Seq<char>,
    password: Seq<char>,
) -> bool {
    match user_lookup(users, username) {
        None => false,
        Some(user) => phc_string_parses(user.password_hash@) && argon2_verify_ok(
            password,
            user.password_hash@,
        ),
    }
}

/// Whether an authentication result is the owed one. A predicate on the
/// result rather than a function to the result, because the error value in
/// the fault case carries a `String` built at run time.
pub open spec fn is_expected_auth_outcome(
    r: Result<u64, AuthError>,
    users: Seq<crate::store::UserRow>,
    username: Seq<char>,
    password: Seq<char>,
) -> bool {
    match user_lookup(users, username) {
        None => r == Err::<u64, AuthError>(AuthError::InvalidCredentials),
        Some(user) => if !phc_string_parses(user.password_hash@) {
            r matches Err(AuthError::UnexpectedError(m)) && m@
                == "Failed to parse the stored password hash."@
        } else if argon2_verify_ok(password, user.password_hash@) {
            r == Ok::<u64, AuthError>(user.user_id)
        } else {
            r == Err::<u64, AuthError>(AuthError::InvalidCredentials)
        },
    }
}

} // verus!
