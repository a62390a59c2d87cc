use chat_relay::error::AuthenticateErrorType;
use chat_relay::handle::Session;
use chat_relay::users::{User, Users};

#[test]
fn a_new_registry_holds_nobody() {
    let users = Users::new();
    assert_eq!(users.get_user(User::new("alice")), None);
    assert_eq!(users.get_user(User::new("")), None);
}

#[test]
fn user_new_keeps_the_name() {
    assert_eq!(User::new("alice").username, "alice");
    assert_eq!(User::new(""), User { username: String::new() });
}

#[test]
fn a_registered_identity_is_found_under_its_exact_name() {
    let mut users = Users::new();
    users.register(User::new("alice"), 7);
    users.register(User::new("bob"), 9);
    assert_eq!(users.get_user(User::new("alice")), Some(7));
    assert_eq!(users.get_user(User::new("bob")), Some(9));
    assert_eq!(users.get_user(User::new("Alice")), None);
    assert_eq!(users.get_user(User::new("alice ")), None);
}

#[test]
fn the_last_to_register_is_the_one_reached() {
    let mut users = Users::new();
    users.register(User::new("alice"), 1);
    users.register(User::new("alice"), 2);
    assert_eq!(users.get_user(User::new("alice")), Some(2));
    assert_eq!(users.remove_user("alice"), Some(2));
    assert_eq!(users.get_user(User::new("alice")), None);
}

#[test]
fn removing_is_idempotent_and_leaves_the_others() {
    let mut users = Users::new();
    users.register(User::new("alice"), 1);
    users.register(User::new("bob"), 2);
    users.register(User::new("carol"), 3);
    assert_eq!(users.remove_user("bob"), Some(2));
    assert_eq!(users.remove_user("bob"), None);
    assert_eq!(users.remove_user("dave"), None);
    assert_eq!(users.get_user(User::new("alice")), Some(1));
    assert_eq!(users.get_user(User::new("bob")), None);
    assert_eq!(users.get_user(User::new("carol")), Some(3));
}

#[test]
fn lookup_has_no_side_effect() {
    let mut users = Users::new();
    users.register(User::new("alice"), 1);
    assert_eq!(users.get_user(User::new("alice")), Some(1));
    assert_eq!(users.get_user(User::new("alice")), Some(1));
    assert_eq!(users.get_user(User::new("bob")), None);
    assert_eq!(users.get_user(User::new("alice")), Some(1));
}

#[test]
fn a_good_verdict_registers_and_a_bad_one_does_not() {
    let mut users = Users::new();
    assert_eq!(users.authenticate_user("alice", Ok(()), 4), Ok(()));
    assert_eq!(users.get_user(User::new("alice")), Some(4));
    assert_eq!(
        users.authenticate_user("bob", Err(AuthenticateErrorType::PasswordMismatch), 5),
        Err(AuthenticateErrorType::PasswordMismatch)
    );
    assert_eq!(users.get_user(User::new("bob")), None);
    assert_eq!(
        users.authenticate_user("alice", Err(AuthenticateErrorType::Sql), 6),
        Err(AuthenticateErrorType::Sql)
    );
    assert_eq!(users.get_user(User::new("alice")), Some(4));
}

#[test]
fn a_new_session_has_bound_nothing() {
    let session = Session::new(3);
    assert_eq!(session.user, User::new(""));
    assert_eq!(session.tx, 3);
    assert_eq!(session.registered, None);
}

#[test]
fn closing_a_session_takes_its_identity_out() {
    let mut users = Users::new();
    users.register(User::new("alice"), 1);
    users.register(User::new("bob"), 2);
    let session = Session { user: User::new("alice"), tx: 1, registered: Some(User::new("alice")) };
    session.close(&mut users);
    assert_eq!(users.get_user(User::new("alice")), None);
    assert_eq!(users.get_user(User::new("bob")), Some(2));
    Session::new(9).close(&mut users);
    assert_eq!(users.get_user(User::new("bob")), Some(2));
}

#[test]
fn removing_a_handle_takes_out_every_identity_that_leads_to_it() {
    let mut users = Users::new();
    users.register(User::new("alice"), 1);
    users.register(User::new("bob"), 2);
    users.register(User::new("carol"), 1);
    users.register(User::new("dave"), 3);
    users.remove_handle(1);
    assert_eq!(users.get_user(User::new("alice")), None);
    assert_eq!(users.get_user(User::new("carol")), None);
    assert_eq!(users.get_user(User::new("bob")), Some(2));
    assert_eq!(users.get_user(User::new("dave")), Some(3));
    users.remove_handle(1);
    users.remove_handle(9);
    assert_eq!(users.get_user(User::new("bob")), Some(2));
    assert_eq!(users.get_user(User::new("dave")), Some(3));
}

#[test]
fn a_name_registered_again_after_removal_is_found_once() {
    let mut users = Users::new();
    users.register(User::new("alice"), 1);
    users.register(User::new("alice"), 2);
    users.remove_handle(2);
    assert_eq!(users.get_user(User::new("alice")), None);
    users.register(User::new("alice"), 3);
    assert_eq!(users.remove_user("alice"), Some(3));
    assert_eq!(users.get_user(User::new("alice")), None);
}

#[test]
fn a_good_verdict_moves_the_handle_to_the_new_name() {
    let mut users = Users::new();
    assert_eq!(users.authenticate_user("alice", Ok(()), 4), Ok(()));
    users.register(User::new("carol"), 5);
    assert_eq!(users.authenticate_user("bob", Ok(()), 4), Ok(()));
    assert_eq!(users.get_user(User::new("alice")), None);
    assert_eq!(users.get_user(User::new("bob")), Some(4));
    assert_eq!(users.get_user(User::new("carol")), Some(5));
    assert_eq!(
        users.authenticate_user("dave", Err(AuthenticateErrorType::UserNotFound), 4),
        Err(AuthenticateErrorType::UserNotFound)
    );
    assert_eq!(users.get_user(User::new("bob")), Some(4));
    assert_eq!(users.get_user(User::new("dave")), None);
}

#[test]
fn closing_a_session_takes_out_what_led_to_its_handle() {
    let mut users = Users::new();
    users.register(User::new("alice"), 1);
    users.register(User::new("bob"), 2);
    let session = Session { user: User::new("carol"), tx: 1, registered: Some(User::new("alice")) };
    session.close(&mut users);
    assert_eq!(users.get_user(User::new("alice")), None);
    assert_eq!(users.get_user(User::new("carol")), None);
    assert_eq!(users.get_user(User::new("bob")), Some(2));
}

#[test]
fn a_new_account_is_stored_taken_or_failed() {
    assert_eq!(Users::add_user(true, false), Ok(()));
    assert_eq!(Users::add_user(true, true), Ok(()));
    assert_eq!(Users::add_user(false, true), Err(AuthenticateErrorType::UserAlreadyExists));
    assert_eq!(Users::add_user(false, false), Err(AuthenticateErrorType::Sql));
}
