//! The frames that travel between a client and the relay.
//!
//! A frame is a JSON record whose member `type` names the kind of frame; its
//! other members are strings, but for the member `error` of an `error` frame.
use vstd::prelude::*;
use crate::error::ProtocolError;
use crate::json::{json_quoted, json_text_at, quote, text_at, text_view};
use crate::text::{joined, owned, same_text};

verus! {

/// What a client asks of the relay.
#[derive(Debug, Clone, PartialEq, Eq)]
pub enum ClientProtocol {
    SendMessage { from: String, to: String, text: String },
    RequestAuthenticate { username: String, password: String },
    CreateUser { username: String, password: String },
}

/// What the relay tells a client.
#[derive(Debug, Clone, PartialEq, Eq)]
pub enum ServerProtocol {
    Message { from: String, to: String, text: String },
    UserDisconnected { username: String },
    Error { error: ProtocolError },
    Authenticated,
    UserCreated,
    /// The acknowledgement that a request went through without an error.
    Success,
}

/// What one duty of a session tells another.
#[derive(Debug, Clone, PartialEq, Eq)]
pub enum InternalProtocol {
    OfflineMessage { username: String },
}

/// A client frame as plain text values.
pub enum ClientProtocolView {
    SendMessage { from: Seq<char>, to: Seq<char>, text: Seq<char> },
    RequestAuthenticate { username: Seq<char>, password: Seq<char> },
    CreateUser { username: Seq<char>, password: Seq<char> },
}

/// A server frame as plain text values.
pub enum ServerProtocolView {
    Message { from: Seq<char>, to: Seq<char>, text: Seq<char> },
    UserDisconnected { username: Seq<char> },
    Error { error: ProtocolError },
    Authenticated,
    UserCreated,
    Success,
}

/// An internal signal as plain text values.
pub enum InternalProtocolView {
    OfflineMessage { username: Seq<char> },
}

/// A record with the members `type`, `from`, `to` and `text`; the last three
/// are given as JSON values.
pub open spec fn message_wire(kind: Seq<char>, from: Seq<char>, to: Seq<char>, text: Seq<char>) -> Seq<
    char,
> {
    "{\"type\":\""@ + kind + "\",\"from\":"@ + from + ",\"to\":"@ + to + ",\"text\":"@ + text + "}"@
}

/// A record with the members `type`, `username` and `password`; the last two
/// are given as JSON values.
pub open spec fn credentials_wire(kind: Seq<char>, username: Seq<char>, password: Seq<char>) -> Seq<
    char,
> {
    "{\"type\":\""@ + kind + "\",\"username\":"@ + username + ",\"password\":"@ + password + "}"@
}

/// A record with the member `type` and one more member, whose value is given
/// as a JSON value.
pub open spec fn member_wire(kind: Seq<char>, key: Seq<char>, value: Seq<char>) -> Seq<char> {
    "{\"type\":\""@ + kind + "\",\""@ + key + "\":"@ + value + "}"@
}

/// A record with the member `type` alone.
pub open spec fn bare_wire(kind: Seq<char>) -> Seq<char> {
    "{\"type\":\""@ + kind + "\"}"@
}

/// Writes a record with the members `type`, `from`, `to` and `text` from the
/// JSON values of the last three.
pub fn message_text(kind: &str, from: &str, to: &str, text: &str) -> (r: String)
    ensures
        r@ == message_wire(kind@, from@, to@, text@),
{
    let r: String = owned("{\"type\":\"");
    let r: String = joined(joined(r, kind), "\",\"from\":");
    let r: String = joined(joined(r, from), ",\"to\":");
    let r: String = joined(joined(r, to), ",\"text\":");
    joined(joined(r, text), "}")
}

/// Writes a record with the members `type`, `username` and `password` from the
/// JSON values of the last two.
pub fn credentials_text(kind: &str, username: &str, password: &str) -> (r: String)
    ensures
        r@ == credentials_wire(kind@, username@, password@),
{
    let r: String = owned("{\"type\":\"");
    let r: String = joined(joined(r, kind), "\",\"username\":");
    let r: String = joined(joined(r, username), ",\"password\":");
    joined(joined(r, password), "}")
}

/// Writes a record with the member `type` and one more member from that
/// member's JSON value.
pub fn member_text(kind: &str, key: &str, value: &str) -> (r: String)
    ensures
        r@ == member_wire(kind@, key@, value@),
{
    let r: String = owned("{\"type\":\"");
    let r: String = joined(joined(r, kind), "\",\"");
    let r: String = joined(joined(r, key), "\":");
    joined(joined(r, value), "}")
}

/// Writes a record with the member `type` alone.
pub fn bare_text(kind: &str) -> (r: String)
    ensures
        r@ == bare_wire(kind@),
{
    joined(joined(owned("{\"type\":\""), kind), "\"}")
}

impl View for ClientProtocol {
    type V = ClientProtocolView;

    open spec fn view(&self) -> ClientProtocolView {
        match self {
            ClientProtocol::SendMessage { from, to, text } => ClientProtocolView::SendMessage {
                from: from@,
                to: to@,
                text: text@,
            },
            ClientProtocol::RequestAuthenticate {
                username,
                password,
            } => ClientProtocolView::RequestAuthenticate {
                username: username@,
                password: password@,
            },
            ClientProtocol::CreateUser { username, password } => ClientProtocolView::CreateUser {
                username: username@,
                password: password@,
            },
        }
    }
}

impl View for ServerProtocol {
    type V = ServerProtocolView;

    open spec fn view(&self) -> ServerProtocolView {
        match self {
            ServerProtocol::Message { from, to, text } => ServerProtocolView::Message {
                from: from@,
                to: to@,
                text: text@,
            },
            ServerProtocol::UserDisconnected { username } => ServerProtocolView::UserDisconnected {
                username: username@,
            },
            ServerProtocol::Error { error } => ServerProtocolView::Error { error: *error },
            ServerProtocol::Authenticated => ServerProtocolView::Authenticated,
            ServerProtocol::UserCreated => ServerProtocolView::UserCreated,
            ServerProtocol::Success => ServerProtocolView::Success,
        }
    }
}

impl View for InternalProtocol {
    type V = InternalProtocolView;

    open spec fn view(&self) -> InternalProtocolView {
        match self {
            InternalProtocol::OfflineMessage { username } => InternalProtocolView::OfflineMessage {
                username: username@,
            },
        }
    }
}

impl ClientProtocolView {
    /// The frame as it travels.
    pub open spec fn wire(self) -> Seq<char> {
        match self {
            ClientProtocolView::SendMessage { from, to, text } => message_wire(
                "send_message"@,
                json_quoted(from),
                json_quoted(to),
                json_quoted(text),
            ),
            ClientProtocolView::RequestAuthenticate { username, password } => credentials_wire(
                "request_authenticate"@,
                json_quoted(username),
                json_quoted(password),
            ),
            ClientProtocolView::CreateUser { username, password } => credentials_wire(
                "create_user"@,
                json_quoted(username),
                json_quoted(password),
            ),
        }
    }

    /// The frame that the string members of a record stand for, if any: the
    /// member `type` must name a kind of client frame, and each member of that
    /// kind must be there as a string. Other members are ignored, and a
    /// member that is there more than once counts with its last value.
    pub open spec fn parsed(
        kind: Option<Seq<char>>,
        from: Option<Seq<char>>,
        to: Option<Seq<char>>,
        text: Option<Seq<char>>,
        username: Option<Seq<char>>,
        password: Option<Seq<char>>,
    ) -> Option<ClientProtocolView> {
        if kind == Some("send_message"@) {
            if from is Some && to is Some && text is Some {
                Some(
                    ClientProtocolView::SendMessage {
                        from: from->0,
                        to: to->0,
                        text: text->0,
                    },
                )
            } else {
                None
            }
        } else if kind == Some("request_authenticate"@) {
            if username is Some && password is Some {
                Some(
                    ClientProtocolView::RequestAuthenticate {
                        username: username->0,
                        password: password->0,
                    },
                )
            } else {
                None
            }
        } else if kind == Some("create_user"@) {
            if username is Some && password is Some {
                Some(
                    ClientProtocolView::CreateUser {
                        username: username->0,
                        password: password->0,
                    },
                )
            } else {
                None
            }
        } else {
            None
        }
    }

    /// The frame that a text stands for, if any.
    pub open spec fn decoded(text: Seq<char>) -> Option<ClientProtocolView> {
        ClientProtocolView::parsed(
            json_text_at(text, "/type"@),
            json_text_at(text, "/from"@),
            json_text_at(text, "/to"@),
            json_text_at(text, "/text"@),
            json_text_at(text, "/username"@),
            json_text_at(text, "/password"@),
        )
    }
}

impl ServerProtocolView {
    /// Whether the frame holds no text of a client.
    pub open spec fn fixed(self) -> bool {
        !(self is Message) && !(self is UserDisconnected)
    }

    /// The frame as it travels.
    pub open spec fn wire(self) -> Seq<char> {
        match self {
            ServerProtocolView::Message { from, to, text } => message_wire(
                "message"@,
                json_quoted(from),
                json_quoted(to),
                json_quoted(text),
            ),
            ServerProtocolView::UserDisconnected { username } => member_wire(
                "user_disconnected"@,
                "username"@,
                json_quoted(username),
            ),
            ServerProtocolView::Error { error } => member_wire("error"@, "error"@, error.wire()),
            ServerProtocolView::Authenticated => bare_wire("authenticated"@),
            ServerProtocolView::UserCreated => bare_wire("user_created"@),
            ServerProtocolView::Success => bare_wire("success"@),
        }
    }

    /// The frame that the string members of a record stand for, if any. The
    /// member `type` must name a kind of server frame, and each member of that
    /// kind must be there: as a string, or, for `error`, as an error value
    /// (`error` is its text where it is a string, `nested` the text of its
    /// member `authenticate_error`).
    pub open spec fn parsed(
        kind: Option<Seq<char>>,
        from: Option<Seq<char>>,
        to: Option<Seq<char>>,
        text: Option<Seq<char>>,
        username: Option<Seq<char>>,
        error: Option<Seq<char>>,
        nested: Option<Seq<char>>,
    ) -> Option<ServerProtocolView> {
        if kind == Some("message"@) {
            if from is Some && to is Some && text is Some {
                Some(ServerProtocolView::Message { from: from->0, to: to->0, text: text->0 })
            } else {
                None
            }
        } else if kind == Some("user_disconnected"@) {
            if username is Some {
                Some(ServerProtocolView::UserDisconnected { username: username->0 })
            } else {
                None
            }
        } else if kind == Some("error"@) {
            match ProtocolError::parsed(error, nested) {
                Some(e) => Some(ServerProtocolView::Error { error: e }),
                None => None,
            }
        } else if kind == Some("authenticated"@) {
            Some(ServerProtocolView::Authenticated)
        } else if kind == Some("user_created"@) {
            Some(ServerProtocolView::UserCreated)
        } else if kind == Some("success"@) {
            Some(ServerProtocolView::Success)
        } else {
            None
        }
    }

    /// The frame that a text stands for, if any.
    pub open spec fn decoded(text: Seq<char>) -> Option<ServerProtocolView> {
        ServerProtocolView::parsed(
            json_text_at(text, "/type"@),
            json_text_at(text, "/from"@),
            json_text_at(text, "/to"@),
            json_text_at(text, "/text"@),
            json_text_at(text, "/username"@),
            json_text_at(text, "/error"@),
            json_text_at(text, "/error/authenticate_error"@),
        )
    }
}

/// The JSON string literal for a text.
pub fn quoted(value: &str) -> (r: Result<String, ProtocolError>)
    ensures
        r matches Ok(s) && s@ == json_quoted(value@),
{
    match quote(value) {
        Ok(s) => Ok(s),
        Err(e) => Err(ProtocolError::from(e)),
    }
}

/// A kind of frame that can be written to and read from its wire text.
pub trait Protocol: Sized + View {
    /// The wire text of a frame.
    spec fn wire_of(frame: Self::V) -> Seq<char>;

    /// The frame that a wire text stands for, if any.
    spec fn decoded_of(text: Seq<char>) -> Option<Self::V>;

    /// Writes the frame as its wire text.
    fn serialize(&self) -> (r: Result<String, ProtocolError>)
        ensures
            r matches Ok(s) && s@ == Self::wire_of(self@),
    ;

    /// Writes the frame as its wire text and hands the text to `f`.
    fn serialize_and<R, F: FnOnce(String) -> R>(self, f: F) -> (r: Result<R, ProtocolError>)
        requires
            forall|text: String| text@ == Self::wire_of(self@) ==> call_requires(f, (text,)),
        ensures
            r is Ok,
            r matches Ok(value) ==> exists|text: String|
                text@ == Self::wire_of(self@) && call_ensures(f, (text,), value),
    ;

    /// Reads a frame from its wire text and hands the frame to `f`. Fails
    /// with `Serde`, without calling `f`, exactly where the text stands for no
    /// frame.
    fn deserialize_and<R, F: FnOnce(Self) -> R>(s: &str, f: F) -> (r: Result<R, ProtocolError>)
        requires
            forall|frame: Self| Self::decoded_of(s@) == Some(frame@) ==> call_requires(f, (frame,)),
        ensures
            match r {
                Ok(value) => exists|frame: Self|
                    Self::decoded_of(s@) == Some(frame@) && call_ensures(f, (frame,), value),
                Err(e) => e == ProtocolError::Serde && Self::decoded_of(s@) is None,
            },
    ;

    /// Reads a frame from its wire text. Fails with `Serde` exactly where the
    /// text stands for no frame.
    fn deserialize(s: &str) -> (r: Result<Self, ProtocolError>)
        ensures
            match r {
                Ok(frame) => Self::decoded_of(s@) == Some(frame@),
                Err(e) => e == ProtocolError::Serde && Self::decoded_of(s@) is None,
            },
    ;
}

impl ClientProtocol {
    /// Builds a client frame from the string members of a record. Fails with
    /// `Serde` exactly where they stand for no frame.
    pub fn from_members(
        kind: Option<String>,
        from: Option<String>,
        to: Option<String>,
        text: Option<String>,
        username: Option<String>,
        password: Option<String>,
    ) -> (r: Result<ClientProtocol, ProtocolError>)
        ensures
            match r {
                Ok(frame) => ClientProtocolView::parsed(
                    text_view(kind),
                    text_view(from),
                    text_view(to),
                    text_view(text),
                    text_view(username),
                    text_view(password),
                ) == Some(frame@),
                Err(e) => e == ProtocolError::Serde && ClientProtocolView::parsed(
                    text_view(kind),
                    text_view(from),
                    text_view(to),
                    text_view(text),
                    text_view(username),
                    text_view(password),
                ) is None,
            },
    {
        let kind: String = match kind {
            Some(k) => k,
            None => { return Err(ProtocolError::Serde); },
        };
        if same_text(kind.as_str(), "send_message") {
            match (from, to, text) {
                (Some(from), Some(to), Some(text)) => Ok(
                    ClientProtocol::SendMessage { from, to, text },
                ),
                _ => Err(ProtocolError::Serde),
            }
        } else if same_text(kind.as_str(), "request_authenticate") {
            match (username, password) {
                (Some(username), Some(password)) => Ok(
                    ClientProtocol::RequestAuthenticate { username, password },
                ),
                _ => Err(ProtocolError::Serde),
            }
        } else if same_text(kind.as_str(), "create_user") {
            match (username, password) {
                (Some(username), Some(password)) => Ok(
                    ClientProtocol::CreateUser { username, password },
                ),
                _ => Err(ProtocolError::Serde),
            }
        } else {
            Err(ProtocolError::Serde)
        }
    }
}

impl Protocol for ClientProtocol {
    open spec fn wire_of(frame: ClientProtocolView) -> Seq<char> {
        frame.wire()
    }

    open spec fn decoded_of(text: Seq<char>) -> Option<ClientProtocolView> {
        ClientProtocolView::decoded(text)
    }

    fn serialize(&self) -> (r: Result<String, ProtocolError>) {
        match self {
            ClientProtocol::SendMessage { from, to, text } => {
                let from: String = quoted(from.as_str())?;
                let to: String = quoted(to.as_str())?;
                let text: String = quoted(text.as_str())?;
                Ok(message_text("send_message", from.as_str(), to.as_str(), text.as_str()))
            },
            ClientProtocol::RequestAuthenticate { username, password } => {
                let username: String = quoted(username.as_str())?;
                let password: String = quoted(password.as_str())?;
                Ok(credentials_text("request_authenticate", username.as_str(), password.as_str()))
            },
            ClientProtocol::CreateUser { username, password } => {
                let username: String = quoted(username.as_str())?;
                let password: String = quoted(password.as_str())?;
                Ok(credentials_text("create_user", username.as_str(), password.as_str()))
            },
        }
    }

    fn serialize_and<R, F: FnOnce(String) -> R>(self, f: F) -> (r: Result<R, ProtocolError>) {
        match self.serialize() {
            Ok(string) => Ok(f(string)),
            Err(e) => Err(e),
        }
    }

    fn deserialize_and<R, F: FnOnce(Self) -> R>(s: &str, f: F) -> (r: Result<R, ProtocolError>) {
        match Self::deserialize(s) {
            Ok(val) => Ok(f(val)),
            Err(e) => Err(e),
        }
    }

    fn deserialize(s: &str) -> (r: Result<Self, ProtocolError>) {
        let kind: Option<String> = text_at(s, "/type");
        let from: Option<String> = text_at(s, "/from");
        let to: Option<String> = text_at(s, "/to");
        let text: Option<String> = text_at(s, "/text");
        let username: Option<String> = text_at(s, "/username");
        let password: Option<String> = text_at(s, "/password");
        ClientProtocol::from_members(kind, from, to, text, username, password)
    }
}

impl ServerProtocol {
    /// The wire text of a frame that holds no text of a client: such a frame
    /// can always be written.
    pub fn fixed_text(&self) -> (r: Option<String>)
        ensures
            text_view(r) == if self@.fixed() {
                Some(self@.wire())
            } else {
                None
            },
    {
        match self {
            ServerProtocol::Error { error } => {
                let value: String = error.encode();
                Some(member_text("error", "error", value.as_str()))
            },
            ServerProtocol::Authenticated => Some(bare_text("authenticated")),
            ServerProtocol::UserCreated => Some(bare_text("user_created")),
            ServerProtocol::Success => Some(bare_text("success")),
            _ => None,
        }
    }

    /// Builds a server frame from the string members of a record; `error` and
    /// `nested` are the two members that can hold an error value. Fails with
    /// `Serde` exactly where they stand for no frame.
    pub fn from_members(
        kind: Option<String>,
        from: Option<String>,
        to: Option<String>,
        text: Option<String>,
        username: Option<String>,
        error: Option<String>,
        nested: Option<String>,
    ) -> (r: Result<ServerProtocol, ProtocolError>)
        ensures
            match r {
                Ok(frame) => ServerProtocolView::parsed(
                    text_view(kind),
                    text_view(from),
                    text_view(to),
                    text_view(text),
                    text_view(username),
                    text_view(error),
                    text_view(nested),
                ) == Some(frame@),
                Err(e) => e == ProtocolError::Serde && ServerProtocolView::parsed(
                    text_view(kind),
                    text_view(from),
                    text_view(to),
                    text_view(text),
                    text_view(username),
                    text_view(error),
                    text_view(nested),
                ) is None,
            },
    {
        let kind: String = match kind {
            Some(k) => k,
            None => { return Err(ProtocolError::Serde); },
        };
        if same_text(kind.as_str(), "message") {
            match (from, to, text) {
                (Some(from), Some(to), Some(text)) => Ok(ServerProtocol::Message { from, to, text }),
                _ => Err(ProtocolError::Serde),
            }
        } else if same_text(kind.as_str(), "user_disconnected") {
            match username {
                Some(username) => Ok(ServerProtocol::UserDisconnected { username }),
                None => Err(ProtocolError::Serde),
            }
        } else if same_text(kind.as_str(), "error") {
            match ProtocolError::from_members(error, nested) {
                Some(error) => Ok(ServerProtocol::Error { error }),
                None => Err(ProtocolError::Serde),
            }
        } else if same_text(kind.as_str(), "authenticated") {
            Ok(ServerProtocol::Authenticated)
        } else if same_text(kind.as_str(), "user_created") {
            Ok(ServerProtocol::UserCreated)
        } else if same_text(kind.as_str(), "success") {
            Ok(ServerProtocol::Success)
        } else {
            Err(ProtocolError::Serde)
        }
    }
}

impl Protocol for ServerProtocol {
    open spec fn wire_of(frame: ServerProtocolView) -> Seq<char> {
        frame.wire()
    }

    open spec fn decoded_of(text: Seq<char>) -> Option<ServerProtocolView> {
        ServerProtocolView::decoded(text)
    }

    fn serialize(&self) -> (r: Result<String, ProtocolError>) {
        match self {
            ServerProtocol::Message { from, to, text } => {
                let from: String = quoted(from.as_str())?;
                let to: String = quoted(to.as_str())?;
                let text: String = quoted(text.as_str())?;
                Ok(message_text("message", from.as_str(), to.as_str(), text.as_str()))
            },
            ServerProtocol::UserDisconnected { username } => {
                let username: String = quoted(username.as_str())?;
                Ok(member_text("user_disconnected", "username", username.as_str()))
            },
            _ => match self.fixed_text() {
                Some(text) => Ok(text),
                None => Err(ProtocolError::Serde),
            },
        }
    }

    fn serialize_and<R, F: FnOnce(String) -> R>(self, f: F) -> (r: Result<R, ProtocolError>) {
        match self.serialize() {
            Ok(string) => Ok(f(string)),
            Err(e) => Err(e),
        }
    }

    fn deserialize_and<R, F: FnOnce(Self) -> R>(s: &str, f: F) -> (r: Result<R, ProtocolError>) {
        match Self::deserialize(s) {
            Ok(val) => Ok(f(val)),
            Err(e) => Err(e),
        }
    }

    fn deserialize(s: &str) -> (r: Result<Self, ProtocolError>) {
        let kind: Option<String> = text_at(s, "/type");
        let from: Option<String> = text_at(s, "/from");
        let to: Option<String> = text_at(s, "/to");
        let text: Option<String> = text_at(s, "/text");
        let username: Option<String> = text_at(s, "/username");
        let error: Option<String> = text_at(s, "/error");
        let nested: Option<String> = text_at(s, "/error/authenticate_error");
        ServerProtocol::from_members(kind, from, to, text, username, error, nested)
    }
}

} // verus!
