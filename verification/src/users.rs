//! Identities and the presence registry.
//!
//! The registry maps the identity of each user who is online to the handle of
//! the session that delivers to that user. A handle is the number under which
//! the service keeps the outbound queue of one session.
use vstd::prelude::*;
use crate::authenticate::{check_password, password_check};
use crate::error::AuthenticateErrorType;
use crate::text::{owned, same_text};

verus! {

/// The identity of a user: a name, compared by its exact text.
#[derive(Debug, Clone, PartialEq, Eq, Hash)]
pub struct User {
    pub username: String,
}

impl View for User {
    type V = Seq<char>;

    open spec fn view(&self) -> Seq<char> {
        self.username@
    }
}

impl User {
    pub fn new(username: &str) -> (r: Self)
        ensures
            r@ == username@,
    {
        User { username: owned(username) }
    }
}

/// The handle that the latest entry for a name holds, if there is one.
pub open spec fn latest(entries: Seq<(String, u64)>, name: Seq<char>) -> Option<u64>
    decreases entries.len(),
{
    if entries.len() == 0 {
        None
    } else if entries.last().0@ == name {
        Some(entries.last().1)
    } else {
        latest(entries.drop_last(), name)
    }
}

/// The entries without those for a name, in their order.
pub open spec fn without(entries: Seq<(String, u64)>, name: Seq<char>) -> Seq<(String, u64)>
    decreases entries.len(),
{
    if entries.len() == 0 {
        entries
    } else if entries.last().0@ == name {
        without(entries.drop_last(), name)
    } else {
        without(entries.drop_last(), name).push(entries.last())
    }
}

proof fn lemma_without(entries: Seq<(String, u64)>, name: Seq<char>, other: Seq<char>)
    ensures
        latest(without(entries, name), other) == if other == name {
            None
        } else {
            latest(entries, other)
        },
    decreases entries.len(),
{
    if entries.len() > 0 {
        lemma_without(entries.drop_last(), name, other);
        if entries.last().0@ != name {
            let rest = without(entries.drop_last(), name);
            assert(rest.push(entries.last()).drop_last() =~= rest);
        }
    }
}

/// The entries without those that hold a handle, in their order.
pub open spec fn without_handle(entries: Seq<(String, u64)>, sender: u64) -> Seq<(String, u64)>
    decreases entries.len(),
{
    if entries.len() == 0 {
        entries
    } else if entries.last().1 == sender {
        without_handle(entries.drop_last(), sender)
    } else {
        without_handle(entries.drop_last(), sender).push(entries.last())
    }
}

/// No name has two entries.
pub open spec fn distinct(entries: Seq<(String, u64)>) -> bool
    decreases entries.len(),
{
    if entries.len() == 0 {
        true
    } else {
        latest(entries.drop_last(), entries.last().0@) is None && distinct(entries.drop_last())
    }
}

/// A registry without the entries that lead to a handle.
pub open spec fn released(registry: Map<Seq<char>, u64>, sender: u64) -> Map<Seq<char>, u64> {
    Map::new(
        |name: Seq<char>| registry.contains_key(name) && registry[name] != sender,
        |name: Seq<char>| registry[name],
    )
}

proof fn lemma_without_distinct(entries: Seq<(String, u64)>, name: Seq<char>)
    requires
        distinct(entries),
    ensures
        distinct(without(entries, name)),
    decreases entries.len(),
{
    if entries.len() > 0 {
        lemma_without_distinct(entries.drop_last(), name);
        if entries.last().0@ != name {
            let rest = without(entries.drop_last(), name);
            lemma_without(entries.drop_last(), name, entries.last().0@);
            assert(rest.push(entries.last()).drop_last() =~= rest);
        }
    }
}

proof fn lemma_without_handle(entries: Seq<(String, u64)>, sender: u64, name: Seq<char>)
    requires
        distinct(entries),
    ensures
        latest(without_handle(entries, sender), name) == match latest(entries, name) {
            Some(handle) => if handle != sender {
                Some(handle)
            } else {
                None
            },
            None => None,
        },
    decreases entries.len(),
{
    if entries.len() > 0 {
        lemma_without_handle(entries.drop_last(), sender, name);
        if entries.last().1 != sender {
            let rest = without_handle(entries.drop_last(), sender);
            assert(rest.push(entries.last()).drop_last() =~= rest);
        }
    }
}

proof fn lemma_without_handle_distinct(entries: Seq<(String, u64)>, sender: u64)
    requires
        distinct(entries),
    ensures
        distinct(without_handle(entries, sender)),
    decreases entries.len(),
{
    if entries.len() > 0 {
        lemma_without_handle_distinct(entries.drop_last(), sender);
        if entries.last().1 != sender {
            let rest = without_handle(entries.drop_last(), sender);
            lemma_without_handle(entries.drop_last(), sender, entries.last().0@);
            assert(rest.push(entries.last()).drop_last() =~= rest);
        }
    }
}

/// The presence registry: who is online, and through which handle. It keeps
/// one entry for each identity that is present, in the order in which the
/// identities came; a lookup walks the entries.
#[derive(Debug)]
pub struct Users {
    on_users: Vec<(String, u64)>,
}

impl View for Users {
    type V = Map<Seq<char>, u64>;

    closed spec fn view(&self) -> Map<Seq<char>, u64> {
        Map::new(
            |name: Seq<char>| latest(self.on_users@, name) is Some,
            |name: Seq<char>| latest(self.on_users@, name)->0,
        )
    }
}

impl Users {
    #[verifier::type_invariant]
    spec fn one_entry_each(&self) -> bool {
        distinct(self.on_users@)
    }

    /// The handle registered for an identity, if it is present.
    pub open spec fn handle_of(&self, name: Seq<char>) -> Option<u64> {
        if self@.contains_key(name) {
            Some(self@[name])
        } else {
            None
        }
    }

    /// The empty registry.
    pub fn new() -> (r: Self)
        ensures
            r@ == Map::<Seq<char>, u64>::empty(),
    {
        let r = Users { on_users: Vec::new() };
        assert(r@ =~= Map::<Seq<char>, u64>::empty());
        r
    }

    fn find(&self, username: &str) -> (r: Option<u64>)
        ensures
            r == latest(self.on_users@, username@),
            r == self.handle_of(username@),
    {
        let mut i: usize = self.on_users.len();
        assert(self.on_users@.take(i as int) =~= self.on_users@);
        while i > 0
            invariant
                i <= self.on_users.len(),
                latest(self.on_users@, username@) == latest(
                    self.on_users@.take(i as int),
                    username@,
                ),
            decreases i,
        {
            let ghost prefix = self.on_users@.take(i as int);
            assert(prefix.last() == self.on_users@[i - 1]);
            assert(prefix.drop_last() =~= self.on_users@.take(i - 1));
            if same_text(self.on_users[i - 1].0.as_str(), username) {
                return Some(self.on_users[i - 1].1);
            }
            i -= 1;
        }
        assert(self.on_users@.take(0).len() == 0);
        None
    }

    /// Looks an identity up. The registry is left as it is.
    pub fn get_user(&self, user: User) -> (r: Option<u64>)
        ensures
            r == self.handle_of(user@),
    {
        self.find(user.username.as_str())
    }

    fn entries_without(&self, username: &str) -> (kept: Vec<(String, u64)>)
        ensures
            kept@ == without(self.on_users@, username@),
    {
        let mut kept: Vec<(String, u64)> = Vec::new();
        let mut i: usize = 0;
        while i < self.on_users.len()
            invariant
                i <= self.on_users.len(),
                kept@ == without(self.on_users@.take(i as int), username@),
            decreases self.on_users.len() - i,
        {
            let ghost next = self.on_users@.take(i + 1);
            assert(next.last() == self.on_users@[i as int]);
            assert(next.drop_last() =~= self.on_users@.take(i as int));
            if !same_text(self.on_users[i].0.as_str(), username) {
                let name: String = self.on_users[i].0.clone();
                kept.push((name, self.on_users[i].1));
            }
            i += 1;
        }
        assert(self.on_users@.take(i as int) =~= self.on_users@);
        kept
    }

    fn entries_without_handle(&self, sender: u64) -> (kept: Vec<(String, u64)>)
        ensures
            kept@ == without_handle(self.on_users@, sender),
    {
        let mut kept: Vec<(String, u64)> = Vec::new();
        let mut i: usize = 0;
        while i < self.on_users.len()
            invariant
                i <= self.on_users.len(),
                kept@ == without_handle(self.on_users@.take(i as int), sender),
            decreases self.on_users.len() - i,
        {
            let ghost next = self.on_users@.take(i + 1);
            assert(next.last() == self.on_users@[i as int]);
            assert(next.drop_last() =~= self.on_users@.take(i as int));
            if self.on_users[i].1 != sender {
                let name: String = self.on_users[i].0.clone();
                kept.push((name, self.on_users[i].1));
            }
            i += 1;
        }
        assert(self.on_users@.take(i as int) =~= self.on_users@);
        kept
    }

    /// Removes an identity, if it is present, and hands back its handle.
    pub fn remove_user(&mut self, username: &str) -> (r: Option<u64>)
        ensures
            final(self)@ == old(self)@.remove(username@),
            r == old(self).handle_of(username@),
    {
        let found: Option<u64> = self.find(username);
        let kept: Vec<(String, u64)> = self.entries_without(username);
        proof {
            use_type_invariant(&*self);
            lemma_without_distinct(self.on_users@, username@);
            assert forall|other: Seq<char>|
                latest(kept@, other) == if other == username@ {
                    None
                } else {
                    latest(self.on_users@, other)
                } by {
                lemma_without(self.on_users@, username@, other);
            }
        }
        let ghost before = self@;
        self.on_users = kept;
        assert(self@ =~= before.remove(username@));
        found
    }

    /// Removes every identity that leads to a handle.
    pub fn remove_handle(&mut self, sender: u64)
        ensures
            final(self)@ == released(old(self)@, sender),
    {
        let kept: Vec<(String, u64)> = self.entries_without_handle(sender);
        proof {
            use_type_invariant(&*self);
            lemma_without_handle_distinct(self.on_users@, sender);
            assert forall|name: Seq<char>|
                latest(kept@, name) == match latest(self.on_users@, name) {
                    Some(handle) => if handle != sender {
                        Some(handle)
                    } else {
                        None
                    },
                    None => None,
                } by {
                lemma_without_handle(self.on_users@, sender, name);
            }
        }
        let ghost before = self@;
        self.on_users = kept;
        assert(self@ =~= released(before, sender));
    }

    /// Registers a handle for an identity. An entry that the identity already
    /// had is replaced: the last to register is the one that is reached.
    pub fn register(&mut self, user: User, sender: u64)
        ensures
            final(self)@ == old(self)@.insert(user@, sender),
    {
        let ghost before = self@;
        let ghost name = user@;
        let mut kept: Vec<(String, u64)> = self.entries_without(user.username.as_str());
        let ghost rest = kept@;
        kept.push((user.username, sender));
        proof {
            use_type_invariant(&*self);
            lemma_without_distinct(self.on_users@, name);
            lemma_without(self.on_users@, name, name);
            assert(kept@.drop_last() =~= rest);
            assert(kept@.last().0@ == name);
            assert(distinct(kept@));
            assert forall|other: Seq<char>|
                latest(kept@, other) == if other == name {
                    Some(sender)
                } else {
                    latest(self.on_users@, other)
                } by {
                lemma_without(self.on_users@, name, other);
            }
        }
        self.on_users = kept;
        assert(self@ =~= before.insert(name, sender));
    }

    /// The verdict on a password, given what the credential store holds for the
    /// user: a failure of the store as it is; `UserNotFound` where it holds
    /// nothing; `Hash` where what it holds is no password hash;
    /// `PasswordMismatch` where the password is another.
    pub open spec fn verdict(
        found: Result<Option<Seq<char>>, AuthenticateErrorType>,
        password: Seq<char>,
    ) -> Result<(), AuthenticateErrorType> {
        match found {
            Err(e) => Err(e),
            Ok(None) => Err(AuthenticateErrorType::UserNotFound),
            Ok(Some(hash)) => Users::judged(password_check(hash, password)),
        }
    }

    /// The verdict that a password check gives.
    pub open spec fn judged(check: Option<bool>) -> Result<(), AuthenticateErrorType> {
        match check {
            None => Err(AuthenticateErrorType::Hash),
            Some(true) => Ok(()),
            Some(false) => Err(AuthenticateErrorType::PasswordMismatch),
        }
    }

    /// The verdict that the result of a password check gives.
    pub fn judge(checked: Result<bool, AuthenticateErrorType>) -> (r: Result<
        (),
        AuthenticateErrorType,
    >)
        ensures
            r == match checked {
                Ok(true) => Ok(()),
                Ok(false) => Err(AuthenticateErrorType::PasswordMismatch),
                Err(e) => Err(e),
            },
    {
        match checked {
            Ok(true) => Ok(()),
            Ok(false) => Err(AuthenticateErrorType::PasswordMismatch),
            Err(e) => Err(e),
        }
    }

    /// Checks a password against what the credential store holds for a user.
    pub fn verify(found: Result<Option<String>, AuthenticateErrorType>, password: &str) -> (r:
        Result<(), AuthenticateErrorType>)
        ensures
            r == Users::verdict(
                match found {
                    Ok(Some(hash)) => Ok(Some(hash@)),
                    Ok(None) => Ok(None),
                    Err(e) => Err(e),
                },
                password@,
            ),
    {
        match found {
            Err(e) => Err(e),
            Ok(None) => Err(AuthenticateErrorType::UserNotFound),
            Ok(Some(hash)) => Users::judge(check_password(hash.as_str(), password)),
        }
    }

    /// What asking the credential store for a new account came to: the
    /// account was stored; or it was not, because the name is taken
    /// (`UserAlreadyExists`); or it was not, because the store failed (`Sql`).
    pub fn add_user(stored: bool, taken: bool) -> (r: Result<(), AuthenticateErrorType>)
        ensures
            r == if stored {
                Ok::<(), AuthenticateErrorType>(())
            } else if taken {
                Err(AuthenticateErrorType::UserAlreadyExists)
            } else {
                Err(AuthenticateErrorType::Sql)
            },
    {
        if stored {
            Ok(())
        } else if taken {
            Err(AuthenticateErrorType::UserAlreadyExists)
        } else {
            Err(AuthenticateErrorType::Sql)
        }
    }

    /// Lets a user in whose password the credential store has confirmed. Where
    /// the verdict is good, the handle leaves every identity that it stood
    /// under and is registered under the name; where it is not, the registry
    /// stays as it is. The verdict is handed back.
    pub fn authenticate_user(
        &mut self,
        username: &str,
        verdict: Result<(), AuthenticateErrorType>,
        sender: u64,
    ) -> (r: Result<(), AuthenticateErrorType>)
        ensures
            r == verdict,
            final(self)@ == if verdict is Ok {
                released(old(self)@, sender).insert(username@, sender)
            } else {
                old(self)@
            },
    {
        if verdict.is_ok() {
            self.remove_handle(sender);
            self.register(User::new(username), sender);
        }
        verdict
    }
}

} // verus!
