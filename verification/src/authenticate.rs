//! Checking a password against what the credential store holds.
use vstd::prelude::*;
use crate::error::AuthenticateErrorType;
use crate::text::owned;

verus! {

/// What checking a password against a stored hash gives, as `argon2` computes
/// it: `None` where the stored text is no password hash, else whether the
/// password is the one that was hashed.
pub uninterp spec fn password_check(hash: Seq<char>, password: Seq<char>) -> Option<bool>;

/// Parses the stored hash with `argon2::PasswordHash::new` and checks the
/// password with `Argon2::default().verify_password`. Trusted: an error comes
/// back exactly where `password_check` names `None`, which is where the hash
/// does not parse; otherwise the result is the named verdict.
#[verifier::external_body]
pub(crate) fn verify_hash(hash_found: &str, password_given: &str) -> (r: Result<
    bool,
    argon2::password_hash::Error,
>)
    ensures
        match r {
            Ok(valid) => password_check(hash_found@, password_given@) == Some(valid),
            Err(_) => password_check(hash_found@, password_given@) is None,
        },
{
    let parsed_hash = argon2::PasswordHash::new(hash_found)?;
    Ok(
        argon2::PasswordVerifier::verify_password(
            &argon2::Argon2::default(),
            password_given.as_bytes(),
            &parsed_hash,
        ).is_ok(),
    )
}

/// Draws a salt with `SaltString::generate` from the operating system's
/// random numbers and hashes the password with
/// `Argon2::default().hash_password`. Trusted: a hash that comes back admits
/// the password that it was made from, as the documentation of `argon2` shows
/// for exactly these calls. Nothing else is claimed: the hash differs from
/// call to call.
#[verifier::external_body]
pub(crate) fn salted_hash(password: &str) -> (r: Result<String, argon2::password_hash::Error>)
    ensures
        r matches Ok(hash) ==> password_check(hash@, password@) == Some(true),
{
    let salt = argon2::password_hash::SaltString::generate(&mut rand::rngs::OsRng);
    let hash = argon2::PasswordHasher::hash_password(
        &argon2::Argon2::default(),
        password.as_bytes(),
        &salt,
    )?;
    Ok(hash.to_string())
}

/// Whether a password is the one behind a stored hash. Fails with `Hash`
/// exactly where the stored text is no password hash.
pub fn check_password(hash_found: &str, password_given: &str) -> (r: Result<
    bool,
    AuthenticateErrorType,
>)
    ensures
        r == verdict_of(password_check(hash_found@, password_given@)),
{
    match verify_hash(hash_found, password_given) {
        Ok(valid) => Ok(valid),
        Err(e) => Err(AuthenticateErrorType::from(e)),
    }
}

/// The result of a password check as the library reports it.
pub open spec fn verdict_of(check: Option<bool>) -> Result<bool, AuthenticateErrorType> {
    match check {
        Some(valid) => Ok(valid),
        None => Err(AuthenticateErrorType::Hash),
    }
}

/// A fresh salted hash of a password, to be kept in the credential store: one
/// that admits this password. Fails with `Hash` where `argon2` refuses the
/// password.
pub fn hash_password(password: &str) -> (r: Result<String, AuthenticateErrorType>)
    ensures
        match r {
            Ok(hash) => password_check(hash@, password@) == Some(true),
            Err(e) => e == AuthenticateErrorType::Hash,
        },
{
    match salted_hash(password) {
        Ok(hash) => Ok(hash),
        Err(e) => Err(AuthenticateErrorType::from(e)),
    }
}

/// What can go wrong when an account is checked or made.
#[derive(Debug, Clone, Copy, PartialEq, Eq, Structural)]
pub enum AccountError {
    Std,
    Hash,
    Sql,
    Envy,
    PasswordMismatch,
    UserNotFound,
    UserNotAdded,
    UserAlreadyExists,
}

impl AccountError {
    /// The text shown to an operator or a user.
    pub open spec fn message(self) -> Seq<char> {
        match self {
            AccountError::Std => "Erro de std"@,
            AccountError::Hash => "Erro de argon2"@,
            AccountError::Sql => "Erro de slqx"@,
            AccountError::Envy => "Erro de dotenvy"@,
            AccountError::PasswordMismatch => "Senha inválida"@,
            AccountError::UserNotFound => "Usuário não encontrado"@,
            AccountError::UserNotAdded => "Usuário não foi cadastrado"@,
            AccountError::UserAlreadyExists => "Usuário já está cadastrado"@,
        }
    }

    /// The same error in the taxonomy that travels on the wire.
    pub open spec fn reported(self) -> AuthenticateErrorType {
        match self {
            AccountError::Std => AuthenticateErrorType::Std,
            AccountError::Hash => AuthenticateErrorType::Hash,
            AccountError::Sql => AuthenticateErrorType::Sql,
            AccountError::Envy => AuthenticateErrorType::Envy,
            AccountError::PasswordMismatch => AuthenticateErrorType::PasswordMismatch,
            AccountError::UserNotFound => AuthenticateErrorType::UserNotFound,
            AccountError::UserNotAdded => AuthenticateErrorType::UserNotAdded,
            AccountError::UserAlreadyExists => AuthenticateErrorType::UserAlreadyExists,
        }
    }

    pub fn to_string(&self) -> (r: String)
        ensures
            r@ == self.message(),
    {
        match self {
            AccountError::Std => owned("Erro de std"),
            AccountError::Hash => owned("Erro de argon2"),
            AccountError::Sql => owned("Erro de slqx"),
            AccountError::Envy => owned("Erro de dotenvy"),
            AccountError::PasswordMismatch => owned("Senha inválida"),
            AccountError::UserNotFound => owned("Usuário não encontrado"),
            AccountError::UserNotAdded => owned("Usuário não foi cadastrado"),
            AccountError::UserAlreadyExists => owned("Usuário já está cadastrado"),
        }
    }

    pub fn report(&self) -> (r: AuthenticateErrorType)
        ensures
            r == self.reported(),
    {
        match self {
            AccountError::Std => AuthenticateErrorType::Std,
            AccountError::Hash => AuthenticateErrorType::Hash,
            AccountError::Sql => AuthenticateErrorType::Sql,
            AccountError::Envy => AuthenticateErrorType::Envy,
            AccountError::PasswordMismatch => AuthenticateErrorType::PasswordMismatch,
            AccountError::UserNotFound => AuthenticateErrorType::UserNotFound,
            AccountError::UserNotAdded => AuthenticateErrorType::UserNotAdded,
            AccountError::UserAlreadyExists => AuthenticateErrorType::UserAlreadyExists,
        }
    }
}

impl From<argon2::password_hash::Error> for AccountError {
    fn from(e: argon2::password_hash::Error) -> (r: Self) {
        AccountError::Hash
    }
}

impl vstd::std_specs::convert::FromSpecImpl<argon2::password_hash::Error> for AccountError {
    open spec fn obeys_from_spec() -> bool {
        true
    }

    open spec fn from_spec(e: argon2::password_hash::Error) -> Self {
        AccountError::Hash
    }
}

impl From<sqlx::Error> for AccountError {
    fn from(e: sqlx::Error) -> (r: Self) {
        AccountError::Sql
    }
}

impl vstd::std_specs::convert::FromSpecImpl<sqlx::Error> for AccountError {
    open spec fn obeys_from_spec() -> bool {
        true
    }

    open spec fn from_spec(e: sqlx::Error) -> Self {
        AccountError::Sql
    }
}

impl From<dotenvy::Error> for AccountError {
    fn from(e: dotenvy::Error) -> (r: Self) {
        AccountError::Envy
    }
}

impl vstd::std_specs::convert::FromSpecImpl<dotenvy::Error> for AccountError {
    open spec fn obeys_from_spec() -> bool {
        true
    }

    open spec fn from_spec(e: dotenvy::Error) -> Self {
        AccountError::Envy
    }
}

/// An account as the credential store holds it.
#[derive(Debug)]
pub struct User {
    pub id: i32,
    pub username: String,
    pub password_hash: String,
}

/// The verdict on a password, given the account that the credential store
/// holds under the name: `UserNotFound` where it holds none, `Hash` where the
/// account's hash is no password hash, `PasswordMismatch` where the password
/// is another.
pub open spec fn account_verdict(found: Option<User>, password: Seq<char>) -> Result<(), AccountError> {
    match found {
        None => Err(AccountError::UserNotFound),
        Some(user) => match password_check(user.password_hash@, password) {
            None => Err(AccountError::Hash),
            Some(true) => Ok(()),
            Some(false) => Err(AccountError::PasswordMismatch),
        },
    }
}

/// The verdict on an account that the result of a password check gives.
pub fn judge_account(checked: Result<bool, AuthenticateErrorType>) -> (r: Result<(), AccountError>)
    ensures
        r == match checked {
            Ok(true) => Ok::<(), AccountError>(()),
            Ok(false) => Err(AccountError::PasswordMismatch),
            Err(_) => Err(AccountError::Hash),
        },
{
    match checked {
        Ok(true) => Ok(()),
        Ok(false) => Err(AccountError::PasswordMismatch),
        Err(_) => Err(AccountError::Hash),
    }
}

/// Checks a password against the account that the credential store holds
/// under a name.
pub fn authenticate_user(found: Option<User>, password: &str) -> (r: Result<(), AccountError>)
    ensures
        r == account_verdict(found, password@),
{
    match found {
        None => Err(AccountError::UserNotFound),
        Some(user) => judge_account(check_password(user.password_hash.as_str(), password)),
    }
}

} // verus!
