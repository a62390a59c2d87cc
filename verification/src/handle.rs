//! Sessions, routing, the authentication gate and the replay of stored
//! messages.
//!
//! Nothing here waits. A function takes what is known, changes the session
//! and the registry where that is its part, and hands back the actions that
//! the service has to perform, in their order. Where an action asks an
//! outside collaborator (the credential store, the offline mailbox), the
//! answer is handed to the function that goes on from there.
use vstd::prelude::*;
use crate::error::{AuthenticateErrorType, ProtocolError};
use crate::protocols::{
    ClientProtocol,
    ClientProtocolView,
    InternalProtocol,
    InternalProtocolView,
    Protocol,
    ServerProtocol,
    ServerProtocolView,
};
use crate::users::{released, User, Users};

verus! {

/// One step that the service performs for the relay.
#[derive(Debug, Clone, PartialEq, Eq)]
pub enum Action {
    /// Put a frame on the outbound queue behind a handle. Nothing is reported
    /// to anyone if that queue is gone.
    Send { tx: u64, frame: ServerProtocol },
    /// Put a signal on the internal queue of the session that is being served.
    Signal { protocol: InternalProtocol },
    /// Ask the credential store whether the password is that of the user, and
    /// hand the verdict to `finish_authenticate`.
    Verify { username: String, password: String },
    /// Ask the credential store whether the addressee is a known user, and
    /// hand the answer to `send_message_checked`.
    CheckExists { from: String, to: String, text: String },
    /// Ask the credential store for a new account, and hand the result to
    /// `finish_create_user`.
    AddUser { username: String, password: String },
    /// Put one message into the offline mailbox. A failure is logged only.
    Store { sender: String, receiver: String, text: String },
    /// Fetch what the offline mailbox holds for a user, oldest first, and hand
    /// it to `offline_message`.
    Fetch { username: String },
    /// Delete all that the offline mailbox holds for a user. A failure is
    /// logged only.
    Delete { username: String },
}

/// An action as plain values.
pub enum ActionView {
    Send { tx: u64, frame: ServerProtocolView },
    Signal { protocol: InternalProtocolView },
    Verify { username: Seq<char>, password: Seq<char> },
    CheckExists { from: Seq<char>, to: Seq<char>, text: Seq<char> },
    AddUser { username: Seq<char>, password: Seq<char> },
    Store { sender: Seq<char>, receiver: Seq<char>, text: Seq<char> },
    Fetch { username: Seq<char> },
    Delete { username: Seq<char> },
}

impl View for Action {
    type V = ActionView;

    open spec fn view(&self) -> ActionView {
        match self {
            Action::Send { tx, frame } => ActionView::Send { tx: *tx, frame: frame@ },
            Action::Signal { protocol } => ActionView::Signal { protocol: protocol@ },
            Action::Verify { username, password } => ActionView::Verify {
                username: username@,
                password: password@,
            },
            Action::CheckExists { from, to, text } => ActionView::CheckExists {
                from: from@,
                to: to@,
                text: text@,
            },
            Action::AddUser { username, password } => ActionView::AddUser {
                username: username@,
                password: password@,
            },
            Action::Store { sender, receiver, text } => ActionView::Store {
                sender: sender@,
                receiver: receiver@,
                text: text@,
            },
            Action::Fetch { username } => ActionView::Fetch { username: username@ },
            Action::Delete { username } => ActionView::Delete { username: username@ },
        }
    }
}

/// A list of actions as plain values.
pub open spec fn plan(actions: Vec<Action>) -> Seq<ActionView> {
    actions@.map_values(|a: Action| a@)
}

/// What the mailbox holds for a user, as plain values: (sender, text) pairs.
pub open spec fn stored_view(stored: Vec<(String, String)>) -> Seq<(Seq<char>, Seq<char>)> {
    stored@.map_values(|m: (String, String)| (m.0@, m.1@))
}

/// An error frame for a handle.
pub open spec fn error_to(tx: u64, error: ProtocolError) -> ActionView {
    ActionView::Send { tx, frame: ServerProtocolView::Error { error } }
}

/// One live connection: the identity that it has bound, the handle of its
/// outbound queue, and the identity under which an authentication on this
/// session has registered that handle, if one has.
#[derive(Debug, Clone, PartialEq, Eq)]
pub struct Session {
    pub user: User,
    pub tx: u64,
    pub registered: Option<User>,
}

/// A session as plain values.
pub struct SessionView {
    pub identity: Seq<char>,
    pub handle: u64,
    pub registered: Option<Seq<char>>,
}

/// The view of an optional identity.
pub open spec fn identity_view(user: Option<User>) -> Option<Seq<char>> {
    match user {
        Some(user) => Some(user@),
        None => None,
    }
}

impl View for Session {
    type V = SessionView;

    open spec fn view(&self) -> SessionView {
        SessionView {
            identity: self.user@,
            handle: self.tx,
            registered: identity_view(self.registered),
        }
    }
}

/// What a message does where its addressee may be online: one who is gets the
/// frame, unchanged, and the sender the acknowledgement; for one who is not,
/// the credential store is asked whether the addressee exists.
pub open spec fn send_plan(
    registry: Map<Seq<char>, u64>,
    from: Seq<char>,
    to: Seq<char>,
    text: Seq<char>,
    tx: u64,
) -> Seq<ActionView> {
    if registry.contains_key(to) {
        seq![
            ActionView::Send { tx: registry[to], frame: ServerProtocolView::Message { from, to, text } },
            ActionView::Send { tx, frame: ServerProtocolView::Success },
        ]
    } else {
        seq![ActionView::CheckExists { from, to, text }]
    }
}

/// What a message to an addressee who is not online does once the credential
/// store has answered: an unknown addressee and a failing store are reported
/// to the sender; for a known one the message goes to the mailbox and the
/// sender gets the acknowledgement.
pub open spec fn checked_plan(
    from: Seq<char>,
    to: Seq<char>,
    text: Seq<char>,
    exists: Result<bool, AuthenticateErrorType>,
    tx: u64,
) -> Seq<ActionView> {
    match exists {
        Ok(true) => seq![
            ActionView::Store { sender: from, receiver: to, text },
            ActionView::Send { tx, frame: ServerProtocolView::Success },
        ],
        Ok(false) => seq![error_to(tx, ProtocolError::UserNotExist)],
        Err(e) => seq![error_to(tx, ProtocolError::AuthenticateError(e))],
    }
}

/// What follows an answer of the credential store: a good one announces the
/// authentication to the session and signals the replay of what was stored
/// for the user; a bad one is reported to the session.
pub open spec fn gate_plan(
    username: Seq<char>,
    verdict: Result<(), AuthenticateErrorType>,
    tx: u64,
) -> Seq<ActionView> {
    match verdict {
        Ok(_) => seq![
            ActionView::Send { tx, frame: ServerProtocolView::Authenticated },
            ActionView::Signal { protocol: InternalProtocolView::OfflineMessage { username } },
        ],
        Err(e) => seq![error_to(tx, ProtocolError::AuthenticateError(e))],
    }
}

/// What is told to a session once the credential store has answered a request
/// for a new account.
pub open spec fn created_plan(result: Result<(), AuthenticateErrorType>, tx: u64) -> Seq<
    ActionView,
> {
    match result {
        Ok(_) => seq![ActionView::Send { tx, frame: ServerProtocolView::UserCreated }],
        Err(e) => seq![error_to(tx, ProtocolError::AuthenticateError(e))],
    }
}

/// The frame that replays the stored message at a position.
pub open spec fn replayed(
    username: Seq<char>,
    stored: Seq<(Seq<char>, Seq<char>)>,
    tx: u64,
    i: int,
) -> ActionView {
    ActionView::Send {
        tx,
        frame: ServerProtocolView::Message { from: stored[i].0, to: username, text: stored[i].1 },
    }
}

/// The replay of stored messages to a handle: nothing where nothing is
/// stored; else one frame for each message, in the stored order, and then the
/// deletion of all that is stored for the user.
pub open spec fn replay_plan(username: Seq<char>, stored: Seq<(Seq<char>, Seq<char>)>, tx: u64) -> Seq<
    ActionView,
> {
    if stored.len() == 0 {
        Seq::empty()
    } else {
        Seq::new(stored.len(), |i: int| replayed(username, stored, tx, i)).push(
            ActionView::Delete { username },
        )
    }
}

/// What a client frame makes the relay do first.
pub open spec fn protocol_plan(
    protocol: ClientProtocolView,
    registry: Map<Seq<char>, u64>,
    tx: u64,
) -> Seq<ActionView> {
    match protocol {
        ClientProtocolView::SendMessage { from, to, text } => send_plan(registry, from, to, text, tx),
        ClientProtocolView::RequestAuthenticate { username, password } => seq![
            ActionView::Verify { username, password },
        ],
        ClientProtocolView::CreateUser { username, password } => seq![
            ActionView::AddUser { username, password },
        ],
    }
}

/// The session after a client frame: a request to authenticate binds its
/// identity to the name that it gives. What the session has registered stays
/// until the credential store has answered.
pub open spec fn bound(session: SessionView, protocol: ClientProtocolView) -> SessionView {
    match protocol {
        ClientProtocolView::RequestAuthenticate { username, password } => SessionView {
            identity: username,
            ..session
        },
        _ => session,
    }
}

/// The registry after the credential store has answered a session's request
/// to authenticate. After a good verdict the session's handle stands under the
/// identity that the session has bound and under no other; after a bad one
/// the registry is as it was.
pub open spec fn admitted(
    registry: Map<Seq<char>, u64>,
    session: SessionView,
    verdict: Result<(), AuthenticateErrorType>,
) -> Map<Seq<char>, u64> {
    if verdict is Ok {
        released(registry, session.handle).insert(session.identity, session.handle)
    } else {
        registry
    }
}

/// The session after the credential store has answered its request to
/// authenticate: after a good verdict it is registered under the identity
/// that it has bound.
pub open spec fn answered(session: SessionView, verdict: Result<(), AuthenticateErrorType>) -> SessionView {
    if verdict is Ok {
        SessionView { registered: Some(session.identity), ..session }
    } else {
        session
    }
}

/// The registry after a session has ended: without the identity that the
/// session had bound, and without every identity that led to its handle.
pub open spec fn departed(registry: Map<Seq<char>, u64>, session: SessionView) -> Map<
    Seq<char>,
    u64,
> {
    released(registry, session.handle).remove(session.identity)
}

/// Routes a message: to the addressee's handle where the addressee is online,
/// else on to the check whether the addressee exists.
pub fn send_message(from: String, to: String, text: String, users: &Users, tx: u64) -> (r: Vec<
    Action,
>)
    ensures
        plan(r) == send_plan(users@, from@, to@, text@, tx),
{
    let target: Option<u64> = users.get_user(User::new(to.as_str()));
    let r: Vec<Action> = match target {
        Some(target) => vec![
            Action::Send { tx: target, frame: ServerProtocol::Message { from, to, text } },
            Action::Send { tx, frame: ServerProtocol::Success },
        ],
        None => vec![Action::CheckExists { from, to, text }],
    };
    assert(plan(r) =~= send_plan(users@, from@, to@, text@, tx));
    r
}

/// Goes on with a message to an addressee who is not online, from the
/// credential store's answer to whether the addressee exists.
pub fn send_message_checked(
    from: String,
    to: String,
    text: String,
    exists: Result<bool, AuthenticateErrorType>,
    tx: u64,
) -> (r: Vec<Action>)
    ensures
        plan(r) == checked_plan(from@, to@, text@, exists, tx),
{
    let r: Vec<Action> = match exists {
        Ok(true) => vec![
            Action::Store { sender: from, receiver: to, text },
            Action::Send { tx, frame: ServerProtocol::Success },
        ],
        Ok(false) => vec![
            Action::Send {
                tx,
                frame: ServerProtocol::Error { error: ProtocolError::UserNotExist },
            },
        ],
        Err(e) => vec![
            Action::Send {
                tx,
                frame: ServerProtocol::Error { error: ProtocolError::AuthenticateError(e) },
            },
        ],
    };
    assert(plan(r) =~= checked_plan(from@, to@, text@, exists, tx));
    r
}

/// Binds the session's identity to the name given, before the credential
/// store is asked, and asks it.
pub fn request_authenticate(username: String, password: String, session: &mut Session) -> (r: Vec<
    Action,
>)
    ensures
        final(session)@ == bound(
            old(session)@,
            ClientProtocolView::RequestAuthenticate { username: username@, password: password@ },
        ),
        plan(r) == seq![ActionView::Verify { username: username@, password: password@ }],
{
    session.user = User::new(username.as_str());
    let r: Vec<Action> = vec![Action::Verify { username, password }];
    assert(plan(r) =~= seq![ActionView::Verify { username: username@, password: password@ }]);
    r
}

/// Goes on with a request to authenticate, from the credential store's
/// verdict on the identity that the session has bound. A good verdict
/// registers the session's handle under that identity and takes it out of
/// every other identity that it stood under; a bad one changes nothing.
pub fn finish_authenticate(
    verdict: Result<(), AuthenticateErrorType>,
    session: &mut Session,
    users: &mut Users,
) -> (r: Vec<Action>)
    ensures
        plan(r) == gate_plan(old(session)@.identity, verdict, old(session)@.handle),
        final(users)@ == admitted(old(users)@, old(session)@, verdict),
        final(session)@ == answered(old(session)@, verdict),
{
    let tx: u64 = session.tx;
    let admitted: Result<(), AuthenticateErrorType> = users.authenticate_user(
        session.user.username.as_str(),
        verdict,
        tx,
    );
    let r: Vec<Action> = match admitted {
        Ok(()) => {
            session.registered = Some(User::new(session.user.username.as_str()));
            vec![
                Action::Send { tx, frame: ServerProtocol::Authenticated },
                Action::Signal {
                    protocol: InternalProtocol::OfflineMessage {
                        username: session.user.username.clone(),
                    },
                },
            ]
        },
        Err(e) => vec![
            Action::Send {
                tx,
                frame: ServerProtocol::Error { error: ProtocolError::AuthenticateError(e) },
            },
        ],
    };
    assert(plan(r) =~= gate_plan(old(session)@.identity, verdict, tx));
    r
}

/// Asks the credential store for a new account.
pub fn create_user(username: String, password: String) -> (r: Vec<Action>)
    ensures
        plan(r) == seq![ActionView::AddUser { username: username@, password: password@ }],
{
    let r: Vec<Action> = vec![Action::AddUser { username, password }];
    assert(plan(r) =~= seq![ActionView::AddUser { username: username@, password: password@ }]);
    r
}

/// Goes on with a request for a new account, from the credential store's
/// result.
pub fn finish_create_user(result: Result<(), AuthenticateErrorType>, tx: u64) -> (r: Vec<Action>)
    ensures
        plan(r) == created_plan(result, tx),
{
    let r: Vec<Action> = match result {
        Ok(()) => vec![Action::Send { tx, frame: ServerProtocol::UserCreated }],
        Err(e) => vec![
            Action::Send {
                tx,
                frame: ServerProtocol::Error { error: ProtocolError::AuthenticateError(e) },
            },
        ],
    };
    assert(plan(r) =~= created_plan(result, tx));
    r
}

/// Does what a client frame asks first.
pub fn handle_protocol(protocol: ClientProtocol, session: &mut Session, users: &Users) -> (r: Vec<
    Action,
>)
    ensures
        plan(r) == protocol_plan(protocol@, users@, old(session)@.handle),
        final(session)@ == bound(old(session)@, protocol@),
{
    match protocol {
        ClientProtocol::SendMessage { from, to, text } => send_message(
            from,
            to,
            text,
            users,
            session.tx,
        ),
        ClientProtocol::RequestAuthenticate { username, password } => request_authenticate(
            username,
            password,
            session,
        ),
        ClientProtocol::CreateUser { username, password } => create_user(username, password),
    }
}

/// Does what an internal signal asks first: the mailbox is asked for what it
/// holds for the user.
pub fn handle_internal(protocol: InternalProtocol) -> (r: Vec<Action>)
    ensures
        plan(r) == seq![
            ActionView::Fetch { username: protocol@->username },
        ],
{
    match protocol {
        InternalProtocol::OfflineMessage { username } => {
            let r: Vec<Action> = vec![Action::Fetch { username }];
            assert(plan(r) =~= seq![ActionView::Fetch { username: username@ }]);
            r
        },
    }
}

/// What the answer of the mailbox makes the replay do: nothing where the
/// fetch failed, else the replay of what was fetched to the user's handle.
pub open spec fn offline_plan(
    username: Seq<char>,
    stored: Result<Seq<(Seq<char>, Seq<char>)>, AuthenticateErrorType>,
    registry: Map<Seq<char>, u64>,
) -> Seq<ActionView> {
    match stored {
        Ok(messages) => replay_plan(username, messages, registry[username]),
        Err(_) => Seq::empty(),
    }
}

/// The view of what a fetch from the mailbox gave.
pub open spec fn fetched_view(stored: Result<Vec<(String, String)>, AuthenticateErrorType>) -> Result<
    Seq<(Seq<char>, Seq<char>)>,
    AuthenticateErrorType,
> {
    match stored {
        Ok(messages) => Ok(stored_view(messages)),
        Err(e) => Err(e),
    }
}

/// Replays what the mailbox holds for a user who has come online: each stored
/// message goes to the user's handle as a frame, in the stored order, and
/// then all that is stored for the user is deleted, whatever became of the
/// frames. Where messages were fetched, the user must be in the registry.
pub fn offline_message(
    username: String,
    stored: Result<Vec<(String, String)>, AuthenticateErrorType>,
    users: &Users,
) -> (r: Vec<Action>)
    requires
        stored matches Ok(messages) ==> messages@.len() == 0 || users@.contains_key(username@),
    ensures
        plan(r) == offline_plan(username@, fetched_view(stored), users@),
{
    let messages: Vec<(String, String)> = match stored {
        Ok(messages) => messages,
        Err(_) => {
            let r: Vec<Action> = Vec::new();
            assert(plan(r) =~= Seq::<ActionView>::empty());
            return r;
        },
    };
    let mut r: Vec<Action> = Vec::new();
    if messages.len() == 0 {
        assert(plan(r) =~= Seq::<ActionView>::empty());
        assert(stored_view(messages).len() == 0);
        return r;
    }
    let tx: u64 = users.get_user(User::new(username.as_str())).unwrap();
    let ghost all = stored_view(messages);
    let mut i: usize = 0;
    while i < messages.len()
        invariant
            i <= messages.len(),
            all == stored_view(messages),
            r@.len() == i,
            forall|j: int| 0 <= j < i ==> (#[trigger] r@[j])@ == replayed(username@, all, tx, j),
        decreases messages.len() - i,
    {
        let from: String = messages[i].0.clone();
        let text: String = messages[i].1.clone();
        r.push(
            Action::Send { tx, frame: ServerProtocol::Message { from, to: username.clone(), text } },
        );
        i += 1;
    }
    r.push(Action::Delete { username });
    assert(plan(r) =~= replay_plan(username@, all, tx));
    r
}

/// The text to put on a session's outbound queue for a frame: the frame's
/// wire text.
pub fn handle_instance(instance: &ServerProtocol) -> (r: Option<String>)
    ensures
        r matches Some(text) && text@ == instance@.wire(),
{
    match instance.serialize() {
        Ok(json) => Some(json),
        Err(e) => handle_result(Err(e)),
    }
}

/// The text to put on a session's outbound queue for the result of writing a
/// frame: nothing after a success; after a failure the wire text of the error
/// frame that reports it.
pub fn handle_result(r: Result<ServerProtocol, ProtocolError>) -> (text: Option<String>)
    ensures
        crate::json::text_view(text) == match r {
            Ok(_) => None,
            Err(e) => Some((ServerProtocolView::Error { error: e }).wire()),
        },
{
    match r {
        Ok(_) => None,
        Err(e) => {
            let err: ServerProtocol = ServerProtocol::Error { error: e };
            err.fixed_text()
        },
    }
}

impl Session {
    /// A session that has just been opened: no identity is bound, and nothing
    /// is registered.
    pub fn new(tx: u64) -> (r: Self)
        ensures
            r@ == (SessionView { identity: Seq::<char>::empty(), handle: tx, registered: None }),
    {
        let r = Session { user: User::new(""), tx, registered: None };
        proof {
            reveal_strlit("");
            assert(r.user@ =~= Seq::<char>::empty());
        }
        r
    }

    /// What a text makes the relay do first.
    pub open spec fn receive_plan(text: Seq<char>, registry: Map<Seq<char>, u64>, tx: u64) -> Seq<
        ActionView,
    > {
        match ClientProtocolView::decoded(text) {
            Some(protocol) => protocol_plan(protocol, registry, tx),
            None => seq![error_to(tx, ProtocolError::InvalidMessage)],
        }
    }

    /// Takes one text from the transport: a text that stands for no client
    /// frame is reported to the session and changes nothing, and the session
    /// stays open; one that does is handled.
    pub fn receive(&mut self, text: &str, users: &Users) -> (r: Vec<Action>)
        ensures
            plan(r) == Session::receive_plan(text@, users@, old(self)@.handle),
            final(self)@ == match ClientProtocolView::decoded(text@) {
                Some(protocol) => bound(old(self)@, protocol),
                None => old(self)@,
            },
    {
        match ClientProtocol::deserialize(text) {
            Ok(protocol) => handle_protocol(protocol, self, users),
            Err(_) => {
                let r: Vec<Action> = vec![
                    Action::Send {
                        tx: self.tx,
                        frame: ServerProtocol::Error { error: ProtocolError::InvalidMessage },
                    },
                ];
                assert(plan(r) =~= seq![error_to(self.tx, ProtocolError::InvalidMessage)]);
                r
            },
        }
    }

    /// Ends the session: the identity that it has bound leaves the registry,
    /// whoever registered it, and so does every identity that led to the
    /// session's handle.
    pub fn close(self, users: &mut Users)
        ensures
            final(users)@ == departed(old(users)@, self@),
    {
        users.remove_handle(self.tx);
        let _ = users.remove_user(self.user.username.as_str());
    }
}

} // verus!
