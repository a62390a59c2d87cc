//! The closed taxonomy of errors that the relay reports.
use vstd::prelude::*;
use crate::text::{joined, owned, same_text};

verus! {

/// The error of `argon2`'s password hashes, carried through unread.
#[verifier::external_type_specification]
#[verifier::external_body]
pub struct ExPasswordHashError(argon2::password_hash::Error);

/// The error of `serde_json`, carried through unread.
#[verifier::external_type_specification]
#[verifier::external_body]
pub struct ExJsonError(serde_json::Error);

/// The error of `sqlx`, carried through unread.
#[verifier::external_type_specification]
#[verifier::external_body]
pub struct ExStoreError(sqlx::Error);

/// The error of `dotenvy`, carried through unread.
#[verifier::external_type_specification]
#[verifier::external_body]
pub struct ExConfigError(dotenvy::Error);

/// What can go wrong with the credential store, the password hashing and the
/// offline mailbox.
#[derive(Debug, Clone, Copy, PartialEq, Eq, Structural)]
pub enum AuthenticateErrorType {
    Std,
    Hash,
    Sql,
    Envy,
    PasswordMismatch,
    UserNotFound,
    UserNotAdded,
    UserAlreadyExists,
    OfflineMessageError,
}

impl AuthenticateErrorType {
    /// The name under which the error travels inside an `error` frame.
    pub open spec fn wire_name(self) -> Seq<char> {
        match self {
            AuthenticateErrorType::Std => "generic-failure"@,
            AuthenticateErrorType::Hash => "hash-failure"@,
            AuthenticateErrorType::Sql => "store-failure"@,
            AuthenticateErrorType::Envy => "config-failure"@,
            AuthenticateErrorType::PasswordMismatch => "password-mismatch"@,
            AuthenticateErrorType::UserNotFound => "user-not-found"@,
            AuthenticateErrorType::UserNotAdded => "user-not-added"@,
            AuthenticateErrorType::UserAlreadyExists => "user-already-exists"@,
            AuthenticateErrorType::OfflineMessageError => "offline-store-failure"@,
        }
    }

    /// The error that a wire name stands for, if any. Names are tried in the
    /// order of the variants.
    pub open spec fn named(name: Seq<char>) -> Option<AuthenticateErrorType> {
        if name == "generic-failure"@ {
            Some(AuthenticateErrorType::Std)
        } else if name == "hash-failure"@ {
            Some(AuthenticateErrorType::Hash)
        } else if name == "store-failure"@ {
            Some(AuthenticateErrorType::Sql)
        } else if name == "config-failure"@ {
            Some(AuthenticateErrorType::Envy)
        } else if name == "password-mismatch"@ {
            Some(AuthenticateErrorType::PasswordMismatch)
        } else if name == "user-not-found"@ {
            Some(AuthenticateErrorType::UserNotFound)
        } else if name == "user-not-added"@ {
            Some(AuthenticateErrorType::UserNotAdded)
        } else if name == "user-already-exists"@ {
            Some(AuthenticateErrorType::UserAlreadyExists)
        } else if name == "offline-store-failure"@ {
            Some(AuthenticateErrorType::OfflineMessageError)
        } else {
            None
        }
    }

    /// The text shown to an operator or a user.
    pub open spec fn message(self) -> Seq<char> {
        match self {
            AuthenticateErrorType::Std => "Erro de std"@,
            AuthenticateErrorType::Hash => "Erro de argon2"@,
            AuthenticateErrorType::Sql => "Erro de slqx"@,
            AuthenticateErrorType::Envy => "Erro de dotenvy"@,
            AuthenticateErrorType::PasswordMismatch => "Senha inválida"@,
            AuthenticateErrorType::UserNotFound => "Usuário não encontrado"@,
            AuthenticateErrorType::UserNotAdded => "Usuário não foi cadastrado"@,
            AuthenticateErrorType::UserAlreadyExists => "Usuário já está cadastrado"@,
            AuthenticateErrorType::OfflineMessageError => "Erro ao armazenar mensagem offline"@,
        }
    }

    pub fn name(&self) -> (r: &'static str)
        ensures
            r@ == self.wire_name(),
    {
        match self {
            AuthenticateErrorType::Std => "generic-failure",
            AuthenticateErrorType::Hash => "hash-failure",
            AuthenticateErrorType::Sql => "store-failure",
            AuthenticateErrorType::Envy => "config-failure",
            AuthenticateErrorType::PasswordMismatch => "password-mismatch",
            AuthenticateErrorType::UserNotFound => "user-not-found",
            AuthenticateErrorType::UserNotAdded => "user-not-added",
            AuthenticateErrorType::UserAlreadyExists => "user-already-exists",
            AuthenticateErrorType::OfflineMessageError => "offline-store-failure",
        }
    }

    pub fn from_name(name: &str) -> (r: Option<AuthenticateErrorType>)
        ensures
            r == AuthenticateErrorType::named(name@),
    {
        if same_text(name, "generic-failure") {
            Some(AuthenticateErrorType::Std)
        } else if same_text(name, "hash-failure") {
            Some(AuthenticateErrorType::Hash)
        } else if same_text(name, "store-failure") {
            Some(AuthenticateErrorType::Sql)
        } else if same_text(name, "config-failure") {
            Some(AuthenticateErrorType::Envy)
        } else if same_text(name, "password-mismatch") {
            Some(AuthenticateErrorType::PasswordMismatch)
        } else if same_text(name, "user-not-found") {
            Some(AuthenticateErrorType::UserNotFound)
        } else if same_text(name, "user-not-added") {
            Some(AuthenticateErrorType::UserNotAdded)
        } else if same_text(name, "user-already-exists") {
            Some(AuthenticateErrorType::UserAlreadyExists)
        } else if same_text(name, "offline-store-failure") {
            Some(AuthenticateErrorType::OfflineMessageError)
        } else {
            None
        }
    }

    pub fn to_string(&self) -> (r: String)
        ensures
            r@ == self.message(),
    {
        let text: &str = match self {
            AuthenticateErrorType::Std => "Erro de std",
            AuthenticateErrorType::Hash => "Erro de argon2",
            AuthenticateErrorType::Sql => "Erro de slqx",
            AuthenticateErrorType::Envy => "Erro de dotenvy",
            AuthenticateErrorType::PasswordMismatch => "Senha inválida",
            AuthenticateErrorType::UserNotFound => "Usuário não encontrado",
            AuthenticateErrorType::UserNotAdded => "Usuário não foi cadastrado",
            AuthenticateErrorType::UserAlreadyExists => "Usuário já está cadastrado",
            AuthenticateErrorType::OfflineMessageError => "Erro ao armazenar mensagem offline",
        };
        text.to_owned()
    }
}

impl From<argon2::password_hash::Error> for AuthenticateErrorType {
    fn from(e: argon2::password_hash::Error) -> (r: Self) {
        AuthenticateErrorType::Hash
    }
}

impl vstd::std_specs::convert::FromSpecImpl<argon2::password_hash::Error> for AuthenticateErrorType {
    open spec fn obeys_from_spec() -> bool {
        true
    }

    open spec fn from_spec(e: argon2::password_hash::Error) -> Self {
        AuthenticateErrorType::Hash
    }
}

impl From<sqlx::Error> for AuthenticateErrorType {
    fn from(e: sqlx::Error) -> (r: Self) {
        AuthenticateErrorType::Sql
    }
}

impl vstd::std_specs::convert::FromSpecImpl<sqlx::Error> for AuthenticateErrorType {
    open spec fn obeys_from_spec() -> bool {
        true
    }

    open spec fn from_spec(e: sqlx::Error) -> Self {
        AuthenticateErrorType::Sql
    }
}

impl From<dotenvy::Error> for AuthenticateErrorType {
    fn from(e: dotenvy::Error) -> (r: Self) {
        AuthenticateErrorType::Envy
    }
}

impl vstd::std_specs::convert::FromSpecImpl<dotenvy::Error> for AuthenticateErrorType {
    open spec fn obeys_from_spec() -> bool {
        true
    }

    open spec fn from_spec(e: dotenvy::Error) -> Self {
        AuthenticateErrorType::Envy
    }
}

/// Every error that a session can report to its client or to the operator.
#[derive(Debug, Clone, Copy, PartialEq, Eq, Structural)]
pub enum ProtocolError {
    Serde,
    InvalidMessage,
    MessageError,
    UserJoinedError,
    UserDisconnectedError,
    UserNotExist,
    UserOffline,
    AuthenticateError(AuthenticateErrorType),
}

impl ProtocolError {
    /// The name under which the error travels inside an `error` frame. An
    /// authentication error travels as a record with this name as its key.
    pub open spec fn wire_name(self) -> Seq<char> {
        match self {
            ProtocolError::Serde => "serde"@,
            ProtocolError::InvalidMessage => "invalid_message"@,
            ProtocolError::MessageError => "message_error"@,
            ProtocolError::UserJoinedError => "user_joined_error"@,
            ProtocolError::UserDisconnectedError => "user_disconnected_error"@,
            ProtocolError::UserNotExist => "user_not_exist"@,
            ProtocolError::UserOffline => "user_offline"@,
            ProtocolError::AuthenticateError(_) => "authenticate_error"@,
        }
    }

    /// The JSON value that stands for the error: a string with its name, or,
    /// for an authentication error, a record of one member whose key is
    /// `authenticate_error` and whose value is the name of the nested error.
    pub open spec fn wire(self) -> Seq<char> {
        match self {
            ProtocolError::AuthenticateError(e) => "{\"authenticate_error\":\""@ + e.wire_name()
                + "\"}"@,
            _ => "\""@ + self.wire_name() + "\""@,
        }
    }

    /// The error without a nested value that a wire name stands for, if any.
    pub open spec fn named(name: Seq<char>) -> Option<ProtocolError> {
        if name == "serde"@ {
            Some(ProtocolError::Serde)
        } else if name == "invalid_message"@ {
            Some(ProtocolError::InvalidMessage)
        } else if name == "message_error"@ {
            Some(ProtocolError::MessageError)
        } else if name == "user_joined_error"@ {
            Some(ProtocolError::UserJoinedError)
        } else if name == "user_disconnected_error"@ {
            Some(ProtocolError::UserDisconnectedError)
        } else if name == "user_not_exist"@ {
            Some(ProtocolError::UserNotExist)
        } else if name == "user_offline"@ {
            Some(ProtocolError::UserOffline)
        } else {
            None
        }
    }

    /// The error that the members of an `error` frame stand for: `plain` is
    /// the text of the member `error` where that is a string, `nested` the
    /// text of its member `authenticate_error`. The plain name is tried first.
    pub open spec fn parsed(plain: Option<Seq<char>>, nested: Option<Seq<char>>) -> Option<
        ProtocolError,
    > {
        match plain {
            Some(name) => ProtocolError::named(name),
            None => match nested {
                Some(name) => match AuthenticateErrorType::named(name) {
                    Some(e) => Some(ProtocolError::AuthenticateError(e)),
                    None => None,
                },
                None => None,
            },
        }
    }

    /// The text shown to an operator or a user.
    pub open spec fn message(self) -> Seq<char> {
        match self {
            ProtocolError::Serde => "Erro ao tentar serializar/deserializar uma mensagem"@,
            ProtocolError::InvalidMessage => "Mensagem inválida"@,
            ProtocolError::MessageError => "Erro ao tentar enviar mensagem"@,
            ProtocolError::UserJoinedError => "Erro ao tentar ao adicionar usuário ao chat"@,
            ProtocolError::UserDisconnectedError => "Erro ao tentar remover usuário do chat"@,
            ProtocolError::UserNotExist => "Usuário inexistente"@,
            ProtocolError::UserOffline => "Usuário offline"@,
            ProtocolError::AuthenticateError(e) => "Erro de autenticação: "@ + e.message(),
        }
    }

    pub fn name(&self) -> (r: &'static str)
        ensures
            r@ == self.wire_name(),
    {
        match self {
            ProtocolError::Serde => "serde",
            ProtocolError::InvalidMessage => "invalid_message",
            ProtocolError::MessageError => "message_error",
            ProtocolError::UserJoinedError => "user_joined_error",
            ProtocolError::UserDisconnectedError => "user_disconnected_error",
            ProtocolError::UserNotExist => "user_not_exist",
            ProtocolError::UserOffline => "user_offline",
            ProtocolError::AuthenticateError(_) => "authenticate_error",
        }
    }

    /// The JSON value that stands for the error.
    pub fn encode(&self) -> (r: String)
        ensures
            r@ == self.wire(),
    {
        match self {
            ProtocolError::AuthenticateError(e) => {
                let head: String = owned("{\"authenticate_error\":\"");
                joined(joined(head, e.name()), "\"}")
            },
            _ => {
                let head: String = owned("\"");
                joined(joined(head, self.name()), "\"")
            },
        }
    }

    pub fn from_name(name: &str) -> (r: Option<ProtocolError>)
        ensures
            r == ProtocolError::named(name@),
    {
        if same_text(name, "serde") {
            Some(ProtocolError::Serde)
        } else if same_text(name, "invalid_message") {
            Some(ProtocolError::InvalidMessage)
        } else if same_text(name, "message_error") {
            Some(ProtocolError::MessageError)
        } else if same_text(name, "user_joined_error") {
            Some(ProtocolError::UserJoinedError)
        } else if same_text(name, "user_disconnected_error") {
            Some(ProtocolError::UserDisconnectedError)
        } else if same_text(name, "user_not_exist") {
            Some(ProtocolError::UserNotExist)
        } else if same_text(name, "user_offline") {
            Some(ProtocolError::UserOffline)
        } else {
            None
        }
    }

    /// Reads an error from the two members of an `error` frame that can hold
    /// one.
    pub fn from_members(plain: Option<String>, nested: Option<String>) -> (r: Option<
        ProtocolError,
    >)
        ensures
            r == ProtocolError::parsed(
                crate::json::text_view(plain),
                crate::json::text_view(nested),
            ),
    {
        match plain {
            Some(name) => ProtocolError::from_name(name.as_str()),
            None => match nested {
                Some(name) => match AuthenticateErrorType::from_name(name.as_str()) {
                    Some(e) => Some(ProtocolError::AuthenticateError(e)),
                    None => None,
                },
                None => None,
            },
        }
    }

    pub fn to_string(&self) -> (r: String)
        ensures
            r@ == self.message(),
    {
        match self {
            ProtocolError::Serde => owned("Erro ao tentar serializar/deserializar uma mensagem"),
            ProtocolError::InvalidMessage => owned("Mensagem inválida"),
            ProtocolError::MessageError => owned("Erro ao tentar enviar mensagem"),
            ProtocolError::UserJoinedError => owned("Erro ao tentar ao adicionar usuário ao chat"),
            ProtocolError::UserDisconnectedError => owned("Erro ao tentar remover usuário do chat"),
            ProtocolError::UserNotExist => owned("Usuário inexistente"),
            ProtocolError::UserOffline => owned("Usuário offline"),
            ProtocolError::AuthenticateError(e) => {
                let inner: String = e.to_string();
                joined(owned("Erro de autenticação: "), inner.as_str())
            },
        }
    }
}

impl From<serde_json::Error> for ProtocolError {
    fn from(e: serde_json::Error) -> (r: Self) {
        ProtocolError::Serde
    }
}

impl vstd::std_specs::convert::FromSpecImpl<serde_json::Error> for ProtocolError {
    open spec fn obeys_from_spec() -> bool {
        true
    }

    open spec fn from_spec(e: serde_json::Error) -> Self {
        ProtocolError::Serde
    }
}

} // verus!
