//! What holds of the relay as a whole.
//!
//! The laws speak of the registry and the sessions as maps, of the offline
//! mailbox as the sequence of the messages that it holds, oldest first, and of
//! the plans that the functions of `handle` hand back.
use vstd::prelude::*;
use crate::error::{AuthenticateErrorType, ProtocolError};
use crate::handle::{
    admitted,
    answered,
    bound,
    checked_plan,
    departed,
    error_to,
    gate_plan,
    replay_plan,
    replayed,
    send_plan,
    ActionView,
    SessionView,
};
use crate::protocols::{ClientProtocolView, InternalProtocolView, ServerProtocolView};
use crate::users::Users;
use crate::authenticate::password_check;

verus! {

/// A message that the offline mailbox holds.
pub struct StoredMessage {
    pub sender: Seq<char>,
    pub receiver: Seq<char>,
    pub text: Seq<char>,
}

/// What the mailbox hands out for a receiver: the (sender, text) pairs of the
/// receiver's messages, oldest first.
pub open spec fn fetched(mailbox: Seq<StoredMessage>, receiver: Seq<char>) -> Seq<
    (Seq<char>, Seq<char>),
>
    decreases mailbox.len(),
{
    if mailbox.len() == 0 {
        Seq::empty()
    } else if mailbox.last().receiver == receiver {
        fetched(mailbox.drop_last(), receiver).push((mailbox.last().sender, mailbox.last().text))
    } else {
        fetched(mailbox.drop_last(), receiver)
    }
}

/// The mailbox without the messages of a receiver.
pub open spec fn cleared(mailbox: Seq<StoredMessage>, receiver: Seq<char>) -> Seq<StoredMessage>
    decreases mailbox.len(),
{
    if mailbox.len() == 0 {
        mailbox
    } else if mailbox.last().receiver == receiver {
        cleared(mailbox.drop_last(), receiver)
    } else {
        cleared(mailbox.drop_last(), receiver).push(mailbox.last())
    }
}

/// The mailbox after one action has been performed with success.
pub open spec fn performed(mailbox: Seq<StoredMessage>, action: ActionView) -> Seq<StoredMessage> {
    match action {
        ActionView::Store { sender, receiver, text } => mailbox.push(
            StoredMessage { sender, receiver, text },
        ),
        ActionView::Delete { username } => cleared(mailbox, username),
        _ => mailbox,
    }
}

/// The mailbox after a plan has been performed with success, action by action.
pub open spec fn performed_all(mailbox: Seq<StoredMessage>, actions: Seq<ActionView>) -> Seq<
    StoredMessage,
>
    decreases actions.len(),
{
    if actions.len() == 0 {
        mailbox
    } else {
        performed(performed_all(mailbox, actions.drop_last()), actions.last())
    }
}

/// The frames that a plan puts on the queue behind a handle, in their order.
pub open spec fn frames_for(actions: Seq<ActionView>, tx: u64) -> Seq<ServerProtocolView>
    decreases actions.len(),
{
    if actions.len() == 0 {
        Seq::empty()
    } else {
        match actions.last() {
            ActionView::Send { tx: target, frame } if target == tx => frames_for(
                actions.drop_last(),
                tx,
            ).push(frame),
            _ => frames_for(actions.drop_last(), tx),
        }
    }
}

/// The frame that hands a stored message to its receiver.
pub open spec fn message_to(receiver: Seq<char>, stored: (Seq<char>, Seq<char>)) -> ServerProtocolView {
    ServerProtocolView::Message { from: stored.0, to: receiver, text: stored.1 }
}

/// Whether a live session holds an identity: an authentication under the
/// identity went through on that session, and none has gone through on it
/// since.
pub open spec fn holds(sessions: Map<u64, SessionView>, tx: u64, identity: Seq<char>) -> bool {
    sessions.contains_key(tx) && sessions[tx].registered == Some(identity)
}

/// The sessions are kept under their handles, and every entry of the registry
/// leads to a live session.
pub open spec fn anchored(registry: Map<Seq<char>, u64>, sessions: Map<u64, SessionView>) -> bool {
    &&& forall|tx: u64| #[trigger] sessions.contains_key(tx) ==> sessions[tx].handle == tx
    &&& forall|identity: Seq<char>| #[trigger]
        registry.contains_key(identity) ==> sessions.contains_key(registry[identity])
}

/// The registry and the live sessions agree: the sessions are kept under
/// their handles, every entry of the registry leads to a live session that
/// holds its identity, and every identity that a live session holds leads to
/// that session.
pub open spec fn consistent(registry: Map<Seq<char>, u64>, sessions: Map<u64, SessionView>) -> bool {
    &&& forall|tx: u64| #[trigger] sessions.contains_key(tx) ==> sessions[tx].handle == tx
    &&& forall|identity: Seq<char>| #[trigger]
        registry.contains_key(identity) ==> holds(sessions, registry[identity], identity)
    &&& forall|tx: u64|
        #[trigger] sessions.contains_key(tx) && sessions[tx].registered is Some
            ==> registry.contains_key(sessions[tx].registered->0) && registry[sessions[tx].registered->0]
            == tx
}

/// A session that has just been opened under a handle.
pub open spec fn opened(tx: u64) -> SessionView {
    SessionView { identity: Seq::<char>::empty(), handle: tx, registered: None }
}

/// Before any session has been opened, the empty registry and the empty set
/// of sessions agree.
pub proof fn agreement_at_start()
    ensures
        consistent(Map::<Seq<char>, u64>::empty(), Map::<u64, SessionView>::empty()),
        anchored(Map::<Seq<char>, u64>::empty(), Map::<u64, SessionView>::empty()),
{
}

/// Where the registry and the live sessions agree, every entry of the
/// registry leads to a live session.
pub proof fn agreement_anchors(registry: Map<Seq<char>, u64>, sessions: Map<u64, SessionView>)
    requires
        consistent(registry, sessions),
    ensures
        anchored(registry, sessions),
{
    assert forall|identity: Seq<char>| #[trigger]
        registry.contains_key(identity) implies sessions.contains_key(registry[identity]) by {
        assert(holds(sessions, registry[identity], identity));
    }
}

/// Where the registry and the live sessions agree, an identity is present in
/// the registry if and only if a live session holds it.
pub proof fn present_iff_held(
    registry: Map<Seq<char>, u64>,
    sessions: Map<u64, SessionView>,
    identity: Seq<char>,
)
    requires
        consistent(registry, sessions),
    ensures
        registry.contains_key(identity) <==> exists|tx: u64| holds(sessions, tx, identity),
{
    if registry.contains_key(identity) {
        assert(holds(sessions, registry[identity], identity));
    }
}

/// Once all sessions have ended, the registry holds no entry.
pub proof fn no_orphans(registry: Map<Seq<char>, u64>, sessions: Map<u64, SessionView>)
    requires
        anchored(registry, sessions),
        sessions == Map::<u64, SessionView>::empty(),
    ensures
        registry == Map::<Seq<char>, u64>::empty(),
{
    assert forall|identity: Seq<char>| !registry.contains_key(identity) by {
        if registry.contains_key(identity) {
            assert(sessions.contains_key(registry[identity]));
        }
    }
    assert(registry =~= Map::<Seq<char>, u64>::empty());
}

/// Every entry of the registry goes on leading to a live session, whatever
/// happens: a session is opened under a handle that no live session has, a
/// live session takes a client frame, the credential store answers a live
/// session's request to authenticate, a live session ends.
pub proof fn entries_stay_anchored(
    registry: Map<Seq<char>, u64>,
    sessions: Map<u64, SessionView>,
    tx: u64,
    protocol: ClientProtocolView,
    verdict: Result<(), AuthenticateErrorType>,
)
    requires
        anchored(registry, sessions),
    ensures
        !sessions.contains_key(tx) ==> anchored(registry, sessions.insert(tx, opened(tx))),
        sessions.contains_key(tx) ==> anchored(
            registry,
            sessions.insert(tx, bound(sessions[tx], protocol)),
        ),
        sessions.contains_key(tx) ==> anchored(
            admitted(registry, sessions[tx], verdict),
            sessions.insert(tx, answered(sessions[tx], verdict)),
        ),
        sessions.contains_key(tx) ==> anchored(departed(registry, sessions[tx]), sessions.remove(tx)),
{
    if !sessions.contains_key(tx) {
        let after = sessions.insert(tx, opened(tx));
        assert forall|identity: Seq<char>| #[trigger]
            registry.contains_key(identity) implies after.contains_key(registry[identity]) by {
            assert(sessions.contains_key(registry[identity]));
        }
    } else {
        let session = sessions[tx];
        let rebound = sessions.insert(tx, bound(session, protocol));
        assert forall|identity: Seq<char>| #[trigger]
            registry.contains_key(identity) implies rebound.contains_key(registry[identity]) by {
            assert(sessions.contains_key(registry[identity]));
        }
        let let_in = admitted(registry, session, verdict);
        let told = sessions.insert(tx, answered(session, verdict));
        assert forall|identity: Seq<char>| #[trigger]
            let_in.contains_key(identity) implies told.contains_key(let_in[identity]) by {
            if registry.contains_key(identity) {
                assert(sessions.contains_key(registry[identity]));
            }
        }
        let left = departed(registry, session);
        let rest = sessions.remove(tx);
        assert forall|identity: Seq<char>| #[trigger]
            left.contains_key(identity) implies rest.contains_key(left[identity]) by {
            assert(registry.contains_key(identity));
            assert(sessions.contains_key(registry[identity]));
        }
    }
}

/// Opening a session under a handle that no live session has keeps the
/// registry and the sessions in agreement.
pub proof fn open_keeps_agreement(
    registry: Map<Seq<char>, u64>,
    sessions: Map<u64, SessionView>,
    tx: u64,
)
    requires
        consistent(registry, sessions),
        !sessions.contains_key(tx),
    ensures
        consistent(registry, sessions.insert(tx, opened(tx))),
{
    let after = sessions.insert(tx, opened(tx));
    assert forall|identity: Seq<char>| #[trigger]
        registry.contains_key(identity) implies holds(after, registry[identity], identity) by {
        assert(holds(sessions, registry[identity], identity));
    }
}

/// A client frame keeps the registry and the sessions in agreement: a request
/// to authenticate binds an identity and leaves what is registered as it is.
pub proof fn frame_keeps_agreement(
    registry: Map<Seq<char>, u64>,
    sessions: Map<u64, SessionView>,
    tx: u64,
    protocol: ClientProtocolView,
)
    requires
        consistent(registry, sessions),
        sessions.contains_key(tx),
    ensures
        consistent(registry, sessions.insert(tx, bound(sessions[tx], protocol))),
{
    let after = sessions.insert(tx, bound(sessions[tx], protocol));
    assert forall|identity: Seq<char>| #[trigger]
        registry.contains_key(identity) implies holds(after, registry[identity], identity) by {
        assert(holds(sessions, registry[identity], identity));
    }
    assert forall|other: u64| #[trigger]
        after.contains_key(other) && after[other].registered is Some implies (
    registry.contains_key(after[other].registered->0) && registry[after[other].registered->0]
        == other) by {
        assert(sessions.contains_key(other));
    }
}

/// The verdict of the credential store keeps the registry and the sessions in
/// agreement, also where the session was registered under another identity,
/// but for one case: a good verdict on an identity that another live session
/// holds. The last to authenticate wins the entry, and the other session,
/// which goes on, is no longer reached.
pub proof fn verdict_keeps_agreement(
    registry: Map<Seq<char>, u64>,
    sessions: Map<u64, SessionView>,
    tx: u64,
    verdict: Result<(), AuthenticateErrorType>,
)
    requires
        consistent(registry, sessions),
        sessions.contains_key(tx),
        verdict is Ok && registry.contains_key(sessions[tx].identity) ==> registry[sessions[tx].identity]
            == tx,
    ensures
        consistent(
            admitted(registry, sessions[tx], verdict),
            sessions.insert(tx, answered(sessions[tx], verdict)),
        ),
{
    let name = sessions[tx].identity;
    let registry_after = admitted(registry, sessions[tx], verdict);
    let after = sessions.insert(tx, answered(sessions[tx], verdict));
    if verdict is Ok {
        assert forall|identity: Seq<char>| #[trigger]
            registry_after.contains_key(identity) implies holds(
            after,
            registry_after[identity],
            identity,
        ) by {
            if identity != name {
                assert(registry.contains_key(identity));
                assert(holds(sessions, registry[identity], identity));
            }
        }
        assert forall|other: u64| #[trigger]
            after.contains_key(other) && after[other].registered is Some implies (
        registry_after.contains_key(after[other].registered->0)
            && registry_after[after[other].registered->0] == other) by {
            if other != tx {
                assert(sessions.contains_key(other));
                let held = sessions[other].registered->0;
                assert(registry.contains_key(held) && registry[held] == other);
            }
        }
    } else {
        assert(after =~= sessions);
    }
}

/// The end of a session keeps the registry and the sessions in agreement,
/// but for one case: the session had bound, by a request that was not
/// granted, an identity that another live session holds. That identity
/// leaves the registry with the session that only asked for it.
pub proof fn close_keeps_agreement(
    registry: Map<Seq<char>, u64>,
    sessions: Map<u64, SessionView>,
    tx: u64,
)
    requires
        consistent(registry, sessions),
        sessions.contains_key(tx),
        registry.contains_key(sessions[tx].identity) ==> registry[sessions[tx].identity] == tx,
    ensures
        consistent(departed(registry, sessions[tx]), sessions.remove(tx)),
{
    let registry_after = departed(registry, sessions[tx]);
    let after = sessions.remove(tx);
    assert forall|identity: Seq<char>| #[trigger]
        registry_after.contains_key(identity) implies holds(
        after,
        registry_after[identity],
        identity,
    ) by {
        assert(registry.contains_key(identity));
        assert(holds(sessions, registry[identity], identity));
    }
    assert forall|other: u64| #[trigger]
        after.contains_key(other) && after[other].registered is Some implies (
    registry_after.contains_key(after[other].registered->0)
        && registry_after[after[other].registered->0] == other) by {
        assert(sessions.contains_key(other));
        let held = sessions[other].registered->0;
        assert(registry.contains_key(held) && registry[held] == other);
    }
}

/// A session that authenticates under one identity and then under another
/// stands under the second alone, and once it has ended it stands under
/// neither.
pub proof fn rebinding_leaves_no_entry(
    registry: Map<Seq<char>, u64>,
    session: SessionView,
    first: Seq<char>,
    second: Seq<char>,
)
    requires
        first != second,
    ensures
        ({
            let as_first = SessionView { identity: first, ..session };
            let one = admitted(registry, as_first, Ok(()));
            let as_second = SessionView { identity: second, ..answered(as_first, Ok(())) };
            let two = admitted(one, as_second, Ok(()));
            let ended = departed(two, answered(as_second, Ok(())));
            &&& one.contains_key(first) && one[first] == session.handle
            &&& !two.contains_key(first)
            &&& two.contains_key(second) && two[second] == session.handle
            &&& !ended.contains_key(first) && !ended.contains_key(second)
            &&& forall|identity: Seq<char>| #[trigger]
                ended.contains_key(identity) ==> ended[identity] != session.handle
        }),
{
}

proof fn lemma_cleared_holds_none(mailbox: Seq<StoredMessage>, receiver: Seq<char>)
    ensures
        fetched(cleared(mailbox, receiver), receiver) == Seq::<(Seq<char>, Seq<char>)>::empty(),
    decreases mailbox.len(),
{
    if mailbox.len() > 0 {
        lemma_cleared_holds_none(mailbox.drop_last(), receiver);
        if mailbox.last().receiver != receiver {
            let rest = cleared(mailbox.drop_last(), receiver);
            assert(rest.push(mailbox.last()).drop_last() =~= rest);
        }
    }
}

proof fn lemma_replay_prefix(
    username: Seq<char>,
    stored: Seq<(Seq<char>, Seq<char>)>,
    tx: u64,
    mailbox: Seq<StoredMessage>,
    n: int,
)
    requires
        0 <= n <= stored.len(),
    ensures
        frames_for(Seq::new(n as nat, |i: int| replayed(username, stored, tx, i)), tx) == Seq::new(
            n as nat,
            |i: int| message_to(username, stored[i]),
        ),
        performed_all(mailbox, Seq::new(n as nat, |i: int| replayed(username, stored, tx, i)))
            == mailbox,
    decreases n,
{
    let sends = Seq::new(n as nat, |i: int| replayed(username, stored, tx, i));
    if n > 0 {
        lemma_replay_prefix(username, stored, tx, mailbox, n - 1);
        let shorter = Seq::new((n - 1) as nat, |i: int| replayed(username, stored, tx, i));
        assert(sends.drop_last() =~= shorter);
        assert(sends.last() == replayed(username, stored, tx, n - 1));
        assert(frames_for(sends, tx) =~= Seq::new(
            n as nat,
            |i: int| message_to(username, stored[i]),
        ));
    } else {
        assert(frames_for(sends, tx) =~= Seq::new(
            n as nat,
            |i: int| message_to(username, stored[i]),
        ));
    }
}

/// The replay hands the stored messages of a receiver to the receiver's
/// handle in the order in which the mailbox holds them, and nothing else; once
/// its plan has been performed, the mailbox holds nothing for the receiver.
pub proof fn replay_in_order(mailbox: Seq<StoredMessage>, receiver: Seq<char>, tx: u64)
    ensures
        frames_for(replay_plan(receiver, fetched(mailbox, receiver), tx), tx) == fetched(
            mailbox,
            receiver,
        ).map_values(|m: (Seq<char>, Seq<char>)| message_to(receiver, m)),
        fetched(
            performed_all(mailbox, replay_plan(receiver, fetched(mailbox, receiver), tx)),
            receiver,
        ) == Seq::<(Seq<char>, Seq<char>)>::empty(),
{
    let stored = fetched(mailbox, receiver);
    let actions = replay_plan(receiver, stored, tx);
    let wanted = stored.map_values(|m: (Seq<char>, Seq<char>)| message_to(receiver, m));
    if stored.len() == 0 {
        assert(frames_for(actions, tx) =~= wanted);
    } else {
        let sends = Seq::new(stored.len(), |i: int| replayed(receiver, stored, tx, i));
        lemma_replay_prefix(receiver, stored, tx, mailbox, stored.len() as int);
        assert(actions.drop_last() =~= sends);
        assert(actions.last() == ActionView::Delete { username: receiver });
        assert(frames_for(actions, tx) =~= wanted);
        assert(performed_all(mailbox, actions) == cleared(mailbox, receiver));
        lemma_cleared_holds_none(mailbox, receiver);
    }
}

proof fn lemma_one(mailbox: Seq<StoredMessage>, a: ActionView, tx: u64)
    ensures
        performed_all(mailbox, seq![a]) == performed(mailbox, a),
        frames_for(seq![a], tx) == frames_for(Seq::empty(), tx) + match a {
            ActionView::Send { tx: target, frame } if target == tx => seq![frame],
            _ => Seq::empty(),
        },
        frames_for(Seq::empty(), tx) == Seq::<ServerProtocolView>::empty(),
{
    let s = seq![a];
    assert(s.drop_last() =~= Seq::<ActionView>::empty());
    assert(s.last() == a);
    assert(performed_all(mailbox, s.drop_last()) == mailbox);
    assert(frames_for(s.drop_last(), tx) =~= Seq::<ServerProtocolView>::empty());
    assert(frames_for(s, tx) =~= frames_for(Seq::empty(), tx) + match a {
        ActionView::Send { tx: target, frame } if target == tx => seq![frame],
        _ => Seq::empty(),
    });
}

proof fn lemma_two(mailbox: Seq<StoredMessage>, a: ActionView, b: ActionView, tx: u64)
    ensures
        performed_all(mailbox, seq![a, b]) == performed(performed(mailbox, a), b),
        frames_for(seq![a, b], tx) == frames_for(seq![a], tx) + match b {
            ActionView::Send { tx: target, frame } if target == tx => seq![frame],
            _ => Seq::empty(),
        },
{
    let s = seq![a, b];
    lemma_one(mailbox, a, tx);
    assert(s.drop_last() =~= seq![a]);
    assert(s.last() == b);
    assert(frames_for(s, tx) =~= frames_for(seq![a], tx) + match b {
        ActionView::Send { tx: target, frame } if target == tx => seq![frame],
        _ => Seq::empty(),
    });
}

/// A message to an identity that is present goes to the handle registered for
/// it as a frame with the same sender, addressee and text, the sender gets the
/// acknowledgement, and the mailbox stays as it is.
pub proof fn online_delivery(
    registry: Map<Seq<char>, u64>,
    mailbox: Seq<StoredMessage>,
    from: Seq<char>,
    to: Seq<char>,
    text: Seq<char>,
    tx: u64,
)
    requires
        registry.contains_key(to),
    ensures
        send_plan(registry, from, to, text, tx) == seq![
            ActionView::Send { tx: registry[to], frame: ServerProtocolView::Message { from, to, text } },
            ActionView::Send { tx, frame: ServerProtocolView::Success },
        ],
        performed_all(mailbox, send_plan(registry, from, to, text, tx)) == mailbox,
        registry[to] != tx ==> frames_for(send_plan(registry, from, to, text, tx), registry[to])
            == seq![ServerProtocolView::Message { from, to, text }] && frames_for(
            send_plan(registry, from, to, text, tx),
            tx,
        ) == seq![ServerProtocolView::Success],
        registry[to] == tx ==> frames_for(send_plan(registry, from, to, text, tx), tx) == seq![
            ServerProtocolView::Message { from, to, text },
            ServerProtocolView::Success,
        ],
{
    let a = ActionView::Send {
        tx: registry[to],
        frame: ServerProtocolView::Message { from, to, text },
    };
    let b = ActionView::Send { tx, frame: ServerProtocolView::Success };
    lemma_two(mailbox, a, b, tx);
    lemma_two(mailbox, a, b, registry[to]);
    lemma_one(mailbox, a, tx);
    lemma_one(mailbox, a, registry[to]);
    let plan = send_plan(registry, from, to, text, tx);
    if registry[to] != tx {
        assert(frames_for(plan, registry[to]) =~= seq![
            ServerProtocolView::Message { from, to, text },
        ]);
        assert(frames_for(plan, tx) =~= seq![ServerProtocolView::Success]);
    } else {
        assert(frames_for(plan, tx) =~= seq![
            ServerProtocolView::Message { from, to, text },
            ServerProtocolView::Success,
        ]);
    }
}

/// A message to an identity that is known and not present puts exactly one
/// entry into the mailbox, with the same sender, receiver and text, and the
/// sender gets the acknowledgement and no error.
pub proof fn offline_storage(
    registry: Map<Seq<char>, u64>,
    mailbox: Seq<StoredMessage>,
    from: Seq<char>,
    to: Seq<char>,
    text: Seq<char>,
    tx: u64,
)
    requires
        !registry.contains_key(to),
    ensures
        send_plan(registry, from, to, text, tx) == seq![ActionView::CheckExists { from, to, text }],
        performed_all(mailbox, send_plan(registry, from, to, text, tx)) == mailbox,
        performed_all(mailbox, checked_plan(from, to, text, Ok(true), tx)) == mailbox.push(
            StoredMessage { sender: from, receiver: to, text },
        ),
        frames_for(checked_plan(from, to, text, Ok(true), tx), tx) == seq![
            ServerProtocolView::Success,
        ],
{
    lemma_one(mailbox, ActionView::CheckExists { from, to, text }, tx);
    let a = ActionView::Store { sender: from, receiver: to, text };
    let b = ActionView::Send { tx, frame: ServerProtocolView::Success };
    lemma_two(mailbox, a, b, tx);
    lemma_one(mailbox, a, tx);
    assert(frames_for(checked_plan(from, to, text, Ok(true), tx), tx) =~= seq![
        ServerProtocolView::Success,
    ]);
}

/// A message to an identity that is neither present nor known leaves the
/// mailbox as it is, and the sender gets the error `UserNotExist`.
pub proof fn unknown_addressee(
    registry: Map<Seq<char>, u64>,
    mailbox: Seq<StoredMessage>,
    from: Seq<char>,
    to: Seq<char>,
    text: Seq<char>,
    tx: u64,
)
    requires
        !registry.contains_key(to),
    ensures
        performed_all(mailbox, send_plan(registry, from, to, text, tx)) == mailbox,
        performed_all(mailbox, checked_plan(from, to, text, Ok(false), tx)) == mailbox,
        frames_for(checked_plan(from, to, text, Ok(false), tx), tx) == seq![
            ServerProtocolView::Error { error: ProtocolError::UserNotExist },
        ],
{
    lemma_one(mailbox, ActionView::CheckExists { from, to, text }, tx);
    lemma_one(mailbox, error_to(tx, ProtocolError::UserNotExist), tx);
    assert(frames_for(checked_plan(from, to, text, Ok(false), tx), tx) =~= seq![
        ServerProtocolView::Error { error: ProtocolError::UserNotExist },
    ]);
}

/// Taking an identity out of the registry twice leaves what taking it out
/// once leaves.
pub proof fn deregister_is_idempotent(registry: Map<Seq<char>, u64>, identity: Seq<char>)
    ensures
        registry.remove(identity).remove(identity) == registry.remove(identity),
        !registry.contains_key(identity) ==> registry.remove(identity) == registry,
{
    assert(registry.remove(identity).remove(identity) =~= registry.remove(identity));
    if !registry.contains_key(identity) {
        assert(registry.remove(identity) =~= registry);
    }
}

/// Of two registrations of one identity the later one is the one that counts.
pub proof fn last_registration_wins(
    registry: Map<Seq<char>, u64>,
    identity: Seq<char>,
    first: u64,
    second: u64,
)
    ensures
        registry.insert(identity, first).insert(identity, second) == registry.insert(
            identity,
            second,
        ),
        registry.insert(identity, first).insert(identity, second)[identity] == second,
{
    assert(registry.insert(identity, first).insert(identity, second) =~= registry.insert(
        identity,
        second,
    ));
}

/// A message that was stored for a receiver who was not present is the last
/// frame of the receiver's next replay, with its sender and text as they were
/// sent, and the replay leaves nothing of it in the mailbox.
pub proof fn stored_message_is_replayed(
    mailbox: Seq<StoredMessage>,
    from: Seq<char>,
    to: Seq<char>,
    text: Seq<char>,
    sender: u64,
    receiver: u64,
)
    ensures
        ({
            let stored = performed_all(mailbox, checked_plan(from, to, text, Ok(true), sender));
            let replay = replay_plan(to, fetched(stored, to), receiver);
            &&& frames_for(replay, receiver).len() == fetched(mailbox, to).len() + 1
            &&& frames_for(replay, receiver).last() == ServerProtocolView::Message { from, to, text }
            &&& fetched(performed_all(stored, replay), to) == Seq::<(Seq<char>, Seq<char>)>::empty()
        }),
{
    let a = ActionView::Store { sender: from, receiver: to, text };
    let b = ActionView::Send { tx: sender, frame: ServerProtocolView::Success };
    lemma_two(mailbox, a, b, sender);
    let stored = performed_all(mailbox, checked_plan(from, to, text, Ok(true), sender));
    let entry = StoredMessage { sender: from, receiver: to, text };
    assert(stored == mailbox.push(entry));
    assert(stored.drop_last() =~= mailbox);
    assert(stored.last() == entry);
    assert(fetched(stored, to) == fetched(mailbox, to).push((from, text)));
    replay_in_order(stored, to, receiver);
}

/// The right password of an account that exists gives the frame
/// `Authenticated` and the signal for the replay; a wrong one gives the error
/// `PasswordMismatch` inside an authentication error, and nothing else.
pub proof fn password_decides(hash: Seq<char>, password: Seq<char>, username: Seq<char>, tx: u64)
    requires
        password_check(hash, password) is Some,
    ensures
        password_check(hash, password) == Some(true) ==> gate_plan(
            username,
            Users::verdict(Ok(Some(hash)), password),
            tx,
        ) == seq![
            ActionView::Send { tx, frame: ServerProtocolView::Authenticated },
            ActionView::Signal { protocol: InternalProtocolView::OfflineMessage { username } },
        ],
        password_check(hash, password) == Some(false) ==> gate_plan(
            username,
            Users::verdict(Ok(Some(hash)), password),
            tx,
        ) == seq![
            error_to(
                tx,
                ProtocolError::AuthenticateError(AuthenticateErrorType::PasswordMismatch),
            ),
        ],
{
}

} // verus!
