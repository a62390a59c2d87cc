use chat_relay::error::{AuthenticateErrorType, ProtocolError};
use chat_relay::handle::{
    create_user, finish_authenticate, finish_create_user, handle_instance, handle_internal,
    handle_protocol, handle_result, offline_message, request_authenticate, send_message,
    send_message_checked, Action, Session,
};
use chat_relay::protocols::{ClientProtocol, InternalProtocol, ServerProtocol};
use chat_relay::users::{User, Users};

fn s(text: &str) -> String {
    String::from(text)
}

fn message(from: &str, to: &str, text: &str) -> ServerProtocol {
    ServerProtocol::Message { from: s(from), to: s(to), text: s(text) }
}

fn error_frame(tx: u64, error: ProtocolError) -> Action {
    Action::Send { tx, frame: ServerProtocol::Error { error } }
}

#[test]
fn a_message_to_a_present_user_is_delivered_unchanged() {
    let mut users = Users::new();
    users.register(User::new("alice"), 11);
    users.register(User::new("bob"), 22);
    let actions = send_message(s("bob"), s("alice"), s("hi there"), &users, 22);
    assert_eq!(
        actions,
        vec![
            Action::Send { tx: 11, frame: message("bob", "alice", "hi there") },
            Action::Send { tx: 22, frame: ServerProtocol::Success },
        ]
    );
}

#[test]
fn a_message_is_not_checked_against_the_sender() {
    let mut users = Users::new();
    users.register(User::new("alice"), 11);
    let actions = send_message(s("mallory"), s("alice"), s("x"), &users, 5);
    assert_eq!(
        actions,
        vec![
            Action::Send { tx: 11, frame: message("mallory", "alice", "x") },
            Action::Send { tx: 5, frame: ServerProtocol::Success },
        ]
    );
}

#[test]
fn a_message_to_an_absent_user_asks_whether_the_user_exists() {
    let mut users = Users::new();
    users.register(User::new("bob"), 22);
    let actions = send_message(s("bob"), s("alice"), s("hi"), &users, 22);
    assert_eq!(actions, vec![Action::CheckExists { from: s("bob"), to: s("alice"), text: s("hi") }]);
}

#[test]
fn a_message_to_a_known_absent_user_is_stored_once() {
    let actions = send_message_checked(s("bob"), s("alice"), s("hi"), Ok(true), 22);
    assert_eq!(
        actions,
        vec![
            Action::Store { sender: s("bob"), receiver: s("alice"), text: s("hi") },
            Action::Send { tx: 22, frame: ServerProtocol::Success },
        ]
    );
}

#[test]
fn a_message_to_an_unknown_user_is_refused_and_not_stored() {
    let actions = send_message_checked(s("bob"), s("nobody"), s("hi"), Ok(false), 22);
    assert_eq!(actions, vec![error_frame(22, ProtocolError::UserNotExist)]);
}

#[test]
fn a_failing_store_is_reported_to_the_sender() {
    let actions = send_message_checked(s("bob"), s("alice"), s("hi"), Err(AuthenticateErrorType::Sql), 22);
    assert_eq!(
        actions,
        vec![error_frame(22, ProtocolError::AuthenticateError(AuthenticateErrorType::Sql))]
    );
}

#[test]
fn a_request_to_authenticate_binds_the_identity_first() {
    let mut session = Session::new(7);
    let actions = request_authenticate(s("alice"), s("secret"), &mut session);
    assert_eq!(actions, vec![Action::Verify { username: s("alice"), password: s("secret") }]);
    assert_eq!(session, Session { user: User::new("alice"), tx: 7, registered: None });
}

#[test]
fn a_good_verdict_registers_announces_and_signals() {
    let mut users = Users::new();
    let mut session = Session::new(7);
    request_authenticate(s("alice"), s("secret"), &mut session);
    let actions = finish_authenticate(Ok(()), &mut session, &mut users);
    assert_eq!(
        actions,
        vec![
            Action::Send { tx: 7, frame: ServerProtocol::Authenticated },
            Action::Signal { protocol: InternalProtocol::OfflineMessage { username: s("alice") } },
        ]
    );
    assert_eq!(users.get_user(User::new("alice")), Some(7));
    assert_eq!(
        session,
        Session { user: User::new("alice"), tx: 7, registered: Some(User::new("alice")) }
    );
}

#[test]
fn a_wrong_password_is_reported_and_registers_nothing() {
    let mut users = Users::new();
    let mut session = Session::new(7);
    request_authenticate(s("alice"), s("wrong"), &mut session);
    let actions = finish_authenticate(
        Err(AuthenticateErrorType::PasswordMismatch),
        &mut session,
        &mut users,
    );
    assert_eq!(
        actions,
        vec![error_frame(
            7,
            ProtocolError::AuthenticateError(AuthenticateErrorType::PasswordMismatch)
        )]
    );
    assert_eq!(users.get_user(User::new("alice")), None);
    assert_eq!(session, Session { user: User::new("alice"), tx: 7, registered: None });
}

#[test]
fn every_bad_verdict_is_wrapped_and_registers_nothing() {
    let verdicts = vec![
        AuthenticateErrorType::UserNotFound,
        AuthenticateErrorType::Sql,
        AuthenticateErrorType::Hash,
        AuthenticateErrorType::Envy,
        AuthenticateErrorType::Std,
    ];
    for verdict in verdicts {
        let mut users = Users::new();
        let mut session = Session::new(1);
        request_authenticate(s("alice"), s("p"), &mut session);
        let actions = finish_authenticate(Err(verdict), &mut session, &mut users);
        assert_eq!(actions, vec![error_frame(1, ProtocolError::AuthenticateError(verdict))]);
        assert_eq!(users.get_user(User::new("alice")), None);
    }
}

#[test]
fn authenticating_again_rebinds_and_registers_again() {
    let mut users = Users::new();
    let mut session = Session::new(7);
    request_authenticate(s("alice"), s("p"), &mut session);
    finish_authenticate(Ok(()), &mut session, &mut users);
    request_authenticate(s("alice"), s("p"), &mut session);
    assert_eq!(session.registered, Some(User::new("alice")));
    finish_authenticate(Ok(()), &mut session, &mut users);
    assert_eq!(users.get_user(User::new("alice")), Some(7));
    request_authenticate(s("bob"), s("p"), &mut session);
    assert_eq!(
        session,
        Session { user: User::new("bob"), tx: 7, registered: Some(User::new("alice")) }
    );
    assert_eq!(users.get_user(User::new("alice")), Some(7));
    finish_authenticate(Ok(()), &mut session, &mut users);
    assert_eq!(
        session,
        Session { user: User::new("bob"), tx: 7, registered: Some(User::new("bob")) }
    );
    assert_eq!(users.get_user(User::new("bob")), Some(7));
    assert_eq!(users.get_user(User::new("alice")), None);
    session.close(&mut users);
    assert_eq!(users.get_user(User::new("bob")), None);
    assert_eq!(users.get_user(User::new("alice")), None);
}

#[test]
fn a_refused_second_name_leaves_the_first_until_the_session_ends() {
    let mut users = Users::new();
    users.register(User::new("carol"), 8);
    let mut session = Session::new(7);
    request_authenticate(s("alice"), s("p"), &mut session);
    finish_authenticate(Ok(()), &mut session, &mut users);
    request_authenticate(s("bob"), s("wrong"), &mut session);
    finish_authenticate(Err(AuthenticateErrorType::PasswordMismatch), &mut session, &mut users);
    assert_eq!(
        session,
        Session { user: User::new("bob"), tx: 7, registered: Some(User::new("alice")) }
    );
    assert_eq!(users.get_user(User::new("alice")), Some(7));
    assert_eq!(users.get_user(User::new("bob")), None);
    session.close(&mut users);
    assert_eq!(users.get_user(User::new("alice")), None);
    assert_eq!(users.get_user(User::new("bob")), None);
    assert_eq!(users.get_user(User::new("carol")), Some(8));
}

#[test]
fn no_entry_is_left_once_every_session_has_ended() {
    let mut users = Users::new();
    let mut first = Session::new(1);
    let mut second = Session::new(2);
    let mut third = Session::new(3);
    request_authenticate(s("a"), s("p"), &mut first);
    finish_authenticate(Ok(()), &mut first, &mut users);
    request_authenticate(s("b"), s("p"), &mut first);
    finish_authenticate(Ok(()), &mut first, &mut users);
    request_authenticate(s("a"), s("p"), &mut second);
    finish_authenticate(Ok(()), &mut second, &mut users);
    request_authenticate(s("c"), s("p"), &mut second);
    finish_authenticate(Ok(()), &mut second, &mut users);
    request_authenticate(s("c"), s("p"), &mut third);
    finish_authenticate(Ok(()), &mut third, &mut users);
    request_authenticate(s("b"), s("nope"), &mut third);
    finish_authenticate(Err(AuthenticateErrorType::PasswordMismatch), &mut third, &mut users);
    assert_eq!(users.get_user(User::new("a")), None);
    assert_eq!(users.get_user(User::new("b")), Some(1));
    assert_eq!(users.get_user(User::new("c")), Some(3));
    second.close(&mut users);
    first.close(&mut users);
    third.close(&mut users);
    for name in ["a", "b", "c", ""] {
        assert_eq!(users.get_user(User::new(name)), None);
    }
}

#[test]
fn the_last_to_authenticate_wins_the_identity() {
    let mut users = Users::new();
    let mut first = Session::new(1);
    let mut second = Session::new(2);
    request_authenticate(s("alice"), s("p"), &mut first);
    finish_authenticate(Ok(()), &mut first, &mut users);
    request_authenticate(s("alice"), s("p"), &mut second);
    finish_authenticate(Ok(()), &mut second, &mut users);
    assert_eq!(users.get_user(User::new("alice")), Some(2));
    first.close(&mut users);
    assert_eq!(users.get_user(User::new("alice")), None);
}

#[test]
fn a_new_account_is_asked_for_and_its_result_reported() {
    assert_eq!(
        create_user(s("alice"), s("secret")),
        vec![Action::AddUser { username: s("alice"), password: s("secret") }]
    );
    assert_eq!(
        finish_create_user(Ok(()), 3),
        vec![Action::Send { tx: 3, frame: ServerProtocol::UserCreated }]
    );
    assert_eq!(
        finish_create_user(Err(AuthenticateErrorType::UserAlreadyExists), 3),
        vec![error_frame(
            3,
            ProtocolError::AuthenticateError(AuthenticateErrorType::UserAlreadyExists)
        )]
    );
}

#[test]
fn client_frames_are_dispatched_by_kind() {
    let mut users = Users::new();
    users.register(User::new("alice"), 11);
    let mut session = Session::new(22);
    assert_eq!(
        handle_protocol(
            ClientProtocol::SendMessage { from: s("bob"), to: s("alice"), text: s("hi") },
            &mut session,
            &users
        ),
        vec![
            Action::Send { tx: 11, frame: message("bob", "alice", "hi") },
            Action::Send { tx: 22, frame: ServerProtocol::Success },
        ]
    );
    assert_eq!(session, Session::new(22));
    assert_eq!(
        handle_protocol(
            ClientProtocol::CreateUser { username: s("u"), password: s("p") },
            &mut session,
            &users
        ),
        vec![Action::AddUser { username: s("u"), password: s("p") }]
    );
    assert_eq!(session, Session::new(22));
    assert_eq!(
        handle_protocol(
            ClientProtocol::RequestAuthenticate { username: s("bob"), password: s("p") },
            &mut session,
            &users
        ),
        vec![Action::Verify { username: s("bob"), password: s("p") }]
    );
    assert_eq!(session.user, User::new("bob"));
}

#[test]
fn a_signal_asks_the_mailbox() {
    assert_eq!(
        handle_internal(InternalProtocol::OfflineMessage { username: s("alice") }),
        vec![Action::Fetch { username: s("alice") }]
    );
}

#[test]
fn replay_keeps_the_stored_order_and_then_deletes() {
    let mut users = Users::new();
    users.register(User::new("alice"), 11);
    let stored = vec![(s("bob"), s("first")), (s("carol"), s("second")), (s("bob"), s("third"))];
    let actions = offline_message(s("alice"), Ok(stored), &users);
    assert_eq!(
        actions,
        vec![
            Action::Send { tx: 11, frame: message("bob", "alice", "first") },
            Action::Send { tx: 11, frame: message("carol", "alice", "second") },
            Action::Send { tx: 11, frame: message("bob", "alice", "third") },
            Action::Delete { username: s("alice") },
        ]
    );
}

#[test]
fn replay_of_nothing_does_nothing() {
    let mut users = Users::new();
    users.register(User::new("alice"), 11);
    assert_eq!(offline_message(s("alice"), Ok(vec![]), &users), vec![]);
    assert_eq!(offline_message(s("bob"), Ok(vec![]), &users), vec![]);
}

#[test]
fn a_failing_fetch_does_nothing() {
    let users = Users::new();
    assert_eq!(offline_message(s("alice"), Err(AuthenticateErrorType::Sql), &users), vec![]);
}

#[test]
fn inbound_text_that_is_no_frame_is_answered_and_the_session_goes_on() {
    let users = Users::new();
    let mut session = Session::new(5);
    let actions = session.receive("{\"type\":\"bogus\"}", &users);
    assert_eq!(actions, vec![error_frame(5, ProtocolError::InvalidMessage)]);
    assert_eq!(session, Session::new(5));
    assert_eq!(
        handle_instance(&ServerProtocol::Error { error: ProtocolError::InvalidMessage }),
        Some(s("{\"type\":\"error\",\"error\":\"invalid_message\"}"))
    );
    let next = session.receive(
        "{\"type\":\"create_user\",\"username\":\"u\",\"password\":\"p\"}",
        &users,
    );
    assert_eq!(next, vec![Action::AddUser { username: s("u"), password: s("p") }]);
}

#[test]
fn inbound_text_is_decoded_and_routed() {
    let mut users = Users::new();
    users.register(User::new("alice"), 11);
    let mut session = Session::new(22);
    let actions = session.receive(
        "{\"type\":\"send_message\",\"from\":\"bob\",\"to\":\"alice\",\"text\":\"a \\\"quoted\\\" word\"}",
        &users,
    );
    assert_eq!(
        actions,
        vec![
            Action::Send { tx: 11, frame: message("bob", "alice", "a \"quoted\" word") },
            Action::Send { tx: 22, frame: ServerProtocol::Success },
        ]
    );
    let auth = session.receive(
        "{\"type\":\"request_authenticate\",\"username\":\"bob\",\"password\":\"pw\"}",
        &users,
    );
    assert_eq!(auth, vec![Action::Verify { username: s("bob"), password: s("pw") }]);
    assert_eq!(session.user, User::new("bob"));
}

#[test]
fn frames_become_outbound_text() {
    assert_eq!(
        handle_instance(&message("bob", "alice", "hi")),
        Some(s("{\"type\":\"message\",\"from\":\"bob\",\"to\":\"alice\",\"text\":\"hi\"}"))
    );
    assert_eq!(handle_instance(&ServerProtocol::Authenticated), Some(s("{\"type\":\"authenticated\"}")));
    assert_eq!(handle_result(Ok(ServerProtocol::Success)), None);
    assert_eq!(
        handle_result(Err(ProtocolError::Serde)),
        Some(s("{\"type\":\"error\",\"error\":\"serde\"}"))
    );
    assert_eq!(
        handle_result(Err(ProtocolError::AuthenticateError(AuthenticateErrorType::Hash))),
        Some(s("{\"type\":\"error\",\"error\":{\"authenticate_error\":\"hash-failure\"}}"))
    );
}

struct World {
    users: Users,
    accounts: Vec<(String, String)>,
    mailbox: Vec<(String, String, String)>,
    outbound: Vec<(u64, ServerProtocol)>,
}

fn perform(world: &mut World, session: &mut Session, actions: Vec<Action>) {
    for action in actions {
        let next = match action {
            Action::Send { tx, frame } => {
                world.outbound.push((tx, frame));
                vec![]
            }
            Action::Signal { protocol } => handle_internal(protocol),
            Action::Verify { username, password } => {
                let verdict = match world.accounts.iter().find(|a| a.0 == username) {
                    None => Err(AuthenticateErrorType::UserNotFound),
                    Some(a) if a.1 == password => Ok(()),
                    Some(_) => Err(AuthenticateErrorType::PasswordMismatch),
                };
                finish_authenticate(verdict, session, &mut world.users)
            }
            Action::CheckExists { from, to, text } => {
                let exists = world.accounts.iter().any(|a| a.0 == to);
                send_message_checked(from, to, text, Ok(exists), session.tx)
            }
            Action::AddUser { username, password } => {
                let result = if world.accounts.iter().any(|a| a.0 == username) {
                    Err(AuthenticateErrorType::UserAlreadyExists)
                } else {
                    world.accounts.push((username, password));
                    Ok(())
                };
                finish_create_user(result, session.tx)
            }
            Action::Store { sender, receiver, text } => {
                world.mailbox.push((sender, receiver, text));
                vec![]
            }
            Action::Fetch { username } => {
                let stored: Vec<(String, String)> = world
                    .mailbox
                    .iter()
                    .filter(|m| m.1 == username)
                    .map(|m| (m.0.clone(), m.2.clone()))
                    .collect();
                offline_message(username, Ok(stored), &world.users)
            }
            Action::Delete { username } => {
                world.mailbox.retain(|m| m.1 != username);
                vec![]
            }
        };
        perform(world, session, next);
    }
}

fn frames_of(world: &World, tx: u64) -> Vec<ServerProtocol> {
    world.outbound.iter().filter(|o| o.0 == tx).map(|o| o.1.clone()).collect()
}

#[test]
fn a_message_sent_while_offline_arrives_after_authentication() {
    let mut world = World {
        users: Users::new(),
        accounts: vec![(s("alice"), s("a-pass")), (s("bob"), s("b-pass"))],
        mailbox: vec![],
        outbound: vec![],
    };
    let mut bob = Session::new(2);
    let auth = bob.receive(
        "{\"type\":\"request_authenticate\",\"username\":\"bob\",\"password\":\"b-pass\"}",
        &world.users,
    );
    perform(&mut world, &mut bob, auth);
    assert_eq!(frames_of(&world, 2), vec![ServerProtocol::Authenticated]);

    let send = bob.receive(
        "{\"type\":\"send_message\",\"from\":\"bob\",\"to\":\"alice\",\"text\":\"hi\"}",
        &world.users,
    );
    perform(&mut world, &mut bob, send);
    assert_eq!(world.mailbox, vec![(s("bob"), s("alice"), s("hi"))]);
    assert_eq!(frames_of(&world, 2), vec![ServerProtocol::Authenticated, ServerProtocol::Success]);

    let mut alice = Session::new(1);
    let auth = alice.receive(
        "{\"type\":\"request_authenticate\",\"username\":\"alice\",\"password\":\"a-pass\"}",
        &world.users,
    );
    perform(&mut world, &mut alice, auth);
    assert_eq!(
        frames_of(&world, 1),
        vec![ServerProtocol::Authenticated, message("bob", "alice", "hi")]
    );
    assert!(world.mailbox.is_empty());

    alice.close(&mut world.users);
    bob.close(&mut world.users);
    assert_eq!(world.users.get_user(User::new("alice")), None);
    assert_eq!(world.users.get_user(User::new("bob")), None);
}

#[test]
fn a_message_to_nobody_is_refused_end_to_end() {
    let mut world = World {
        users: Users::new(),
        accounts: vec![(s("bob"), s("b-pass"))],
        mailbox: vec![],
        outbound: vec![],
    };
    let mut bob = Session::new(2);
    let send = bob.receive(
        "{\"type\":\"send_message\",\"from\":\"bob\",\"to\":\"ghost\",\"text\":\"hi\"}",
        &world.users,
    );
    perform(&mut world, &mut bob, send);
    assert!(world.mailbox.is_empty());
    assert_eq!(
        frames_of(&world, 2),
        vec![ServerProtocol::Error { error: ProtocolError::UserNotExist }]
    );
}

#[test]
fn presence_follows_the_sessions() {
    let mut world = World {
        users: Users::new(),
        accounts: vec![(s("alice"), s("a")), (s("bob"), s("b"))],
        mailbox: vec![],
        outbound: vec![],
    };
    let mut alice = Session::new(1);
    let mut bob = Session::new(2);
    assert_eq!(world.users.get_user(User::new("alice")), None);
    let a = request_authenticate(s("alice"), s("a"), &mut alice);
    perform(&mut world, &mut alice, a);
    assert_eq!(world.users.get_user(User::new("alice")), Some(1));
    let b = request_authenticate(s("bob"), s("wrong"), &mut bob);
    perform(&mut world, &mut bob, b);
    assert_eq!(world.users.get_user(User::new("bob")), None);
    let b = request_authenticate(s("bob"), s("b"), &mut bob);
    perform(&mut world, &mut bob, b);
    assert_eq!(world.users.get_user(User::new("bob")), Some(2));
    alice.close(&mut world.users);
    assert_eq!(world.users.get_user(User::new("alice")), None);
    assert_eq!(world.users.get_user(User::new("bob")), Some(2));
    bob.close(&mut world.users);
    assert_eq!(world.users.get_user(User::new("bob")), None);
}
