use crate::auth::{expired, has_session_of, sweep_effect, validated, Session, SessionStore};
use crate::credentials::{
    check_password, hash_password, make_salt, password_matches, salt_of, salted_digest,
};
use crate::db::{
    new_user_record, ChatRecord, DatabaseError, Inserter, MessageRecord, Retriever, StoreModel,
    User, UserRecord,
};
use crate::utils::unixepoch;
use vstd::prelude::*;

verus! {

/// Why a login was refused.
#[derive(Debug, Clone, Copy, PartialEq, Eq, Structural)]
pub enum AuthError {
    /// No user has the given id.
    UserNotFound,
    /// The password does not match the stored digest.
    InvalidCredentials,
    /// Every random session id drawn was already held by a live session.
    NoFreeSessionId,
}

/// The record that registration leaves for a user with the given name, password
/// and salt seed, with last activity time `last_active`.
pub open spec fn registered_record(
    name: Seq<char>,
    surname: Seq<char>,
    password: Seq<char>,
    seed: u64,
    last_active: i64,
) -> UserRecord {
    UserRecord {
        last_active,
        ..new_user_record(name, surname, salted_digest(salt_of(seed), password), salt_of(seed))
    }
}

/// `after` is `before` with a new user `id` registered, last active at 0 or at `now`.
pub open spec fn registration_effect(
    before: StoreModel,
    after: StoreModel,
    id: i64,
    name: Seq<char>,
    surname: Seq<char>,
    password: Seq<char>,
    seed: u64,
    now: i64,
) -> bool {
    &&& !before.users.contains_key(id)
    &&& after.users.contains_key(id)
    &&& after.users[id].last_active == 0 || after.users[id].last_active == now
    &&& after == (StoreModel {
        users: before.users.insert(
            id,
            registered_record(name, surname, password, seed, after.users[id].last_active),
        ),
        ..before
    })
}

/// `after` is `before`, or `before` with the last activity time of `user_id` set to `now`.
pub open spec fn activity_effect(before: StoreModel, after: StoreModel, user_id: i64, now: i64) -> bool {
    ||| after == before
    ||| before.users.contains_key(user_id) && after == (StoreModel {
        users: before.users.insert(user_id, UserRecord { last_active: now, ..before.users[user_id] }),
        ..before
    })
}

/// A user stored by registration with `password` is accepted with that password,
/// and refused with any other password whose salted digest differs from it.
pub proof fn lemma_registered_password_accepted(
    before: StoreModel,
    after: StoreModel,
    id: i64,
    name: Seq<char>,
    surname: Seq<char>,
    password: Seq<char>,
    other: Seq<char>,
    seed: u64,
    now: i64,
)
    requires
        registration_effect(before, after, id, name, surname, password, seed, now),
    ensures
        after.users.contains_key(id),
        password_matches(after.users[id], password),
        salted_digest(salt_of(seed), other) != salted_digest(salt_of(seed), password)
            ==> !password_matches(after.users[id], other),
{
}

/// What a login of user `id` with `password` may do, given the store and the
/// sessions before (`store`, `sessions`) and after (`store2`, `sessions2`), and its
/// result `r`. A missing user is refused with `UserNotFound`; a refusal for the
/// password only comes when it does not match; running out of free session ids
/// only happens with a matching password and a non-empty table. A success opens
/// a new session for `id` under an id that was free, and records its time as the
/// user's last activity (when the store accepts the write). A failure changes
/// nothing.
pub open spec fn login_outcome(
    store: StoreModel,
    sessions: Map<i64, Session>,
    store2: StoreModel,
    sessions2: Map<i64, Session>,
    id: i64,
    password: Seq<char>,
    r: Result<i64, AuthError>,
) -> bool {
    &&& !store.users.contains_key(id) ==> r == Err::<i64, AuthError>(AuthError::UserNotFound)
    &&& r == Err::<i64, AuthError>(AuthError::InvalidCredentials) ==> store.users.contains_key(id)
        && !password_matches(store.users[id], password)
    &&& r == Err::<i64, AuthError>(AuthError::NoFreeSessionId) ==> store.users.contains_key(id)
        && password_matches(store.users[id], password) && !sessions.is_empty()
    &&& r matches Ok(sid) ==> {
        &&& store.users.contains_key(id)
        &&& password_matches(store.users[id], password)
        &&& !sessions.contains_key(sid)
        &&& sessions2.contains_key(sid)
        &&& sessions2[sid].user_id == id
        &&& sessions2 == sessions.insert(sid, sessions2[sid])
        &&& activity_effect(store, store2, id, sessions2[sid].timestamp)
    }
    &&& r is Err ==> sessions2 == sessions && store2 == store
}

/// A user registered with `password` cannot log in with another password whose
/// salted digest differs: such a login is refused, either for the password or
/// because the store did not return the user, and changes neither the store nor
/// the sessions.
pub proof fn lemma_wrong_password_refused(
    before: StoreModel,
    registered: StoreModel,
    id: i64,
    name: Seq<char>,
    surname: Seq<char>,
    password: Seq<char>,
    seed: u64,
    now: i64,
    sessions: Map<i64, Session>,
    store2: StoreModel,
    sessions2: Map<i64, Session>,
    other: Seq<char>,
    r: Result<i64, AuthError>,
)
    requires
        registration_effect(before, registered, id, name, surname, password, seed, now),
        salted_digest(salt_of(seed), other) != salted_digest(salt_of(seed), password),
        login_outcome(registered, sessions, store2, sessions2, id, other, r),
    ensures
        r == Err::<i64, AuthError>(AuthError::InvalidCredentials) || r == Err::<i64, AuthError>(
            AuthError::UserNotFound,
        ),
        sessions2 == sessions,
        store2 == registered,
{
    lemma_registered_password_accepted(before, registered, id, name, surname, password, other, seed, now);
    assert(!password_matches(registered.users[id], other));
    // Split on the result so that each clause of the outcome is considered.
    match r {
        Ok(_) => {},
        Err(e) => match e {
            AuthError::NoFreeSessionId => {},
            _ => {},
        },
    }
}

/// The shared state of the service: the store and the live sessions.
pub struct App<T: Retriever + Inserter> {
    pub storage: T,
    pub sessions: SessionStore,
}

/// The outcome of a login attempt, given what the store returned for the user.
pub fn authenticate(found: &Result<User, DatabaseError>, password: &str) -> (r: Result<
    i64,
    AuthError,
>)
    ensures
        match found {
            Ok(u) => if password_matches(u@, password@) {
                r == Ok::<i64, AuthError>(u.id)
            } else {
                r == Err::<i64, AuthError>(AuthError::InvalidCredentials)
            },
            Err(_) => r == Err::<i64, AuthError>(AuthError::UserNotFound),
        },
{
    match found {
        Ok(u) => if check_password(u.password.as_str(), u.salt.as_str(), password) {
            Ok(u.id)
        } else {
            Err(AuthError::InvalidCredentials)
        },
        Err(_) => Err(AuthError::UserNotFound),
    }
}

impl<T: Retriever + Inserter> App<T> {
    /// A service over `storage`, with no live sessions.
    pub fn new(storage: T) -> (r: App<T>)
        ensures
            r.storage == storage,
            r.sessions@ == Map::<i64, Session>::empty(),
    {
        App { storage, sessions: SessionStore::new() }
    }

    /// The user that owns the live session whose id is written in `session_id`.
    pub fn session_validate_str(&self, session_id: &str) -> (r: Option<i64>)
        ensures
            r == validated(self.sessions@, session_id@),
    {
        self.sessions.validate(session_id)
    }

    /// Registers a user with a salt drawn at random and returns the new id;
    /// `None`, with the store unchanged, when the store refuses the user.
    pub fn register(&mut self, name: &str, surname: &str, password: &str) -> (r: Option<i64>)
        ensures
            final(self).sessions@ == old(self).sessions@,
            r is None ==> final(self).storage.store() == old(self).storage.store(),
            r matches Some(id) ==> exists|seed: u64, now: i64|
                registration_effect(
                    old(self).storage.store(),
                    final(self).storage.store(),
                    id,
                    name@,
                    surname@,
                    password@,
                    seed,
                    now,
                ),
    {
        let seed = rand::random::<u64>();
        let now = unixepoch();
        self.register_salted(name, surname, password, seed, now)
    }

    /// Registers a user whose salt is the hexadecimal form of `seed`: stores the
    /// salted digest of `password`, never the password, then records `now` as the
    /// user's last activity. Returns the new id, or `None`, with the store
    /// unchanged, when the store refuses the user. A failure to record the
    /// activity time leaves it at 0 and is not reported.
    pub fn register_salted(
        &mut self,
        name: &str,
        surname: &str,
        password: &str,
        seed: u64,
        now: i64,
    ) -> (r: Option<i64>)
        ensures
            final(self).sessions@ == old(self).sessions@,
            r is None ==> final(self).storage.store() == old(self).storage.store(),
            r matches Some(id) ==> registration_effect(
                old(self).storage.store(),
                final(self).storage.store(),
                id,
                name@,
                surname@,
                password@,
                seed,
                now,
            ),
    {
        let salt = make_salt(seed);
        let digest = hash_password(salt.as_str(), password);
        match self.storage.create_user(name, surname, digest.as_str(), salt.as_str()) {
            Ok(id) => {
                let ghost created = self.storage.store();
                let _ = self.storage.update_last_activity(id, now);
                assert(created.users.insert(
                    id,
                    UserRecord { last_active: now, ..created.users[id] },
                ) == created.users.insert(
                    id,
                    registered_record(name@, surname@, password@, seed, now),
                ));
                assert(created.users.insert(
                    id,
                    registered_record(name@, surname@, password@, seed, now),
                ) =~= old(self).storage.store().users.insert(
                    id,
                    registered_record(name@, surname@, password@, seed, now),
                ));
                Some(id)
            },
            Err(_) => None,
        }
    }

    /// Checks the password of user `id` and opens a new session for it, and
    /// records the login as the user's last activity; returns the session id.
    pub fn login(&mut self, id: i64, password: &str) -> (r: Result<i64, AuthError>)
        ensures
            login_outcome(
                old(self).storage.store(),
                old(self).sessions@,
                final(self).storage.store(),
                final(self).sessions@,
                id,
                password@,
                r,
            ),
    {
        let found = self.storage.get_user(id);
        match authenticate(&found, password) {
            Ok(uid) => {
                let now = unixepoch();
                match self.sessions.insert(uid, now) {
                    Some(sid) => {
                        let _ = self.storage.update_last_activity(uid, now);
                        Ok(sid)
                    },
                    None => Err(AuthError::NoFreeSessionId),
                }
            },
            Err(e) => Err(e),
        }
    }

    /// Makes `user_id` a member of `chat_id`; `None`, with the store unchanged,
    /// when the store refuses.
    pub fn invite(&mut self, user_id: i64, chat_id: i64) -> (r: Option<()>)
        ensures
            final(self).sessions@ == old(self).sessions@,
            r is Some ==> final(self).storage.store() == (StoreModel {
                members: old(self).storage.store().members.insert((chat_id, user_id)),
                ..old(self).storage.store()
            }),
            r is None ==> final(self).storage.store() == old(self).storage.store(),
    {
        match self.storage.add_user(chat_id, user_id) {
            None => Some(()),
            Some(_) => None,
        }
    }

    /// Creates a chat with no members and returns its id; `None`, with the store
    /// unchanged, when the store refuses.
    pub fn create_chat(&mut self, title: &str, description: &str) -> (r: Option<i64>)
        ensures
            final(self).sessions@ == old(self).sessions@,
            r matches Some(id) ==> !old(self).storage.store().chats.contains_key(id) && final(self).storage.store() == (StoreModel {
                chats: old(self).storage.store().chats.insert(
                    id,
                    ChatRecord { title: title@, description: description@ },
                ),
                ..old(self).storage.store()
            }),
            r is None ==> final(self).storage.store() == old(self).storage.store(),
    {
        match self.storage.create_chat(title, description) {
            Ok(id) => Some(id),
            Err(_) => None,
        }
    }

    /// Creates a chat and makes `user_id` its first member, as two separate store
    /// writes. Returns the chat id when both succeed. When the membership is
    /// refused the chat stays, without members, and the result is `None`.
    pub fn create_chat_with_member(&mut self, user_id: i64, title: &str, description: &str) -> (r:
        Option<i64>)
        ensures
            final(self).sessions@ == old(self).sessions@,
            r matches Some(id) ==> !old(self).storage.store().chats.contains_key(id) && final(self).storage.store() == (StoreModel {
                chats: old(self).storage.store().chats.insert(
                    id,
                    ChatRecord { title: title@, description: description@ },
                ),
                members: old(self).storage.store().members.insert((id, user_id)),
                ..old(self).storage.store()
            }),
            r is None ==> final(self).storage.store() == old(self).storage.store() || exists|id: i64|
                !old(self).storage.store().chats.contains_key(id) && final(self).storage.store() == (
                StoreModel {
                    chats: old(self).storage.store().chats.insert(
                        id,
                        ChatRecord { title: title@, description: description@ },
                    ),
                    ..old(self).storage.store()
                }),
    {
        match self.create_chat(title, description) {
            Some(id) => match self.invite(user_id, id) {
                Some(()) => Some(id),
                None => {
                    assert(!old(self).storage.store().chats.contains_key(id));
                    None
                },
            },
            None => None,
        }
    }

    /// Stores a message from `uid` in chat `chat_id`, stamped with the current time.
    pub fn message(&mut self, uid: i64, chat_id: i64, content: &str) -> (r: Option<()>)
        ensures
            final(self).sessions@ == old(self).sessions@,
            r is Some ==> final(self).storage.store().messages.len() == old(self).storage.store().messages.len() + 1 && final(self).storage.store() == (StoreModel {
                messages: old(self).storage.store().messages.push(
                    MessageRecord {
                        content: content@,
                        timestamp: final(self).storage.store().messages.last().timestamp,
                        chat_id,
                        user_id: uid,
                    },
                ),
                ..old(self).storage.store()
            }),
            r is None ==> final(self).storage.store() == old(self).storage.store(),
    {
        let now = unixepoch();
        self.message_at(uid, chat_id, content, now)
    }

    /// Stores a message from `uid` in chat `chat_id`, stamped `now`; `None`, with
    /// the store unchanged, when the store refuses.
    pub fn message_at(&mut self, uid: i64, chat_id: i64, content: &str, now: i64) -> (r: Option<
        (),
    >)
        ensures
            final(self).sessions@ == old(self).sessions@,
            r is Some ==> final(self).storage.store() == (StoreModel {
                messages: old(self).storage.store().messages.push(
                    MessageRecord { content: content@, timestamp: now, chat_id, user_id: uid },
                ),
                ..old(self).storage.store()
            }),
            r is None ==> final(self).storage.store() == old(self).storage.store(),
    {
        match self.storage.store_message(chat_id, uid, content, now) {
            None => Some(()),
            Some(_) => None,
        }
    }

    /// Marks session `sid` as active now and records the time as its owner's last
    /// activity in the store.
    pub fn set_activity(&mut self, sid: i64) -> (r: Option<()>)
        ensures
            !old(self).sessions@.contains_key(sid) ==> r is None && final(self).sessions@ == old(self).sessions@ && final(self).storage.store() == old(self).storage.store(),
            old(self).sessions@.contains_key(sid) ==> {
                let owner = old(self).sessions@[sid].user_id;
                let t = final(self).sessions@[sid].timestamp;
                &&& final(self).sessions@ == old(self).sessions@.insert(
                    sid,
                    Session { user_id: owner, timestamp: t },
                )
                &&& r is Some ==> final(self).storage.store() == (StoreModel {
                    users: old(self).storage.store().users.insert(
                        owner,
                        UserRecord { last_active: t, ..old(self).storage.store().users[owner] },
                    ),
                    ..old(self).storage.store()
                })
                &&& r is None ==> final(self).storage.store() == old(self).storage.store()
            },
    {
        let now = unixepoch();
        self.heartbeat_at(sid, now)
    }

    /// Marks session `sid` as active at `now`, then, as a separate step, records
    /// `now` as its owner's last activity in the store. `None` when the session is
    /// not live, changing nothing, or when the store refuses, in which case the
    /// session stays refreshed.
    pub fn heartbeat_at(&mut self, sid: i64, now: i64) -> (r: Option<()>)
        ensures
            !old(self).sessions@.contains_key(sid) ==> r is None && final(self).sessions@ == old(self).sessions@ && final(self).storage.store() == old(self).storage.store(),
            old(self).sessions@.contains_key(sid) ==> {
                let owner = old(self).sessions@[sid].user_id;
                &&& final(self).sessions@ == old(self).sessions@.insert(
                    sid,
                    Session { user_id: owner, timestamp: now },
                )
                &&& r is Some ==> final(self).storage.store() == (StoreModel {
                    users: old(self).storage.store().users.insert(
                        owner,
                        UserRecord { last_active: now, ..old(self).storage.store().users[owner] },
                    ),
                    ..old(self).storage.store()
                })
                &&& r is None ==> final(self).storage.store() == old(self).storage.store()
            },
    {
        match self.sessions.touch(sid, now) {
            Some(owner) => match self.storage.update_last_activity(owner, now) {
                None => Some(()),
                Some(_) => None,
            },
            None => None,
        }
    }

    /// Whether user `id` holds any live session; always `Some`.
    pub fn is_active(&self, id: i64) -> (r: Option<bool>)
        ensures
            r == Some(has_session_of(self.sessions@, id)),
    {
        Some(self.sessions.is_active_for_user(id))
    }

    /// Ends session `sid`. Ending a session that is not live is no error: the
    /// result is always `Some`.
    pub fn logout(&mut self, sid: i64) -> (r: Option<()>)
        ensures
            r is Some,
            final(self).sessions@ == old(self).sessions@.remove(sid),
            final(self).storage == old(self).storage,
    {
        self.sessions.remove(sid);
        Some(())
    }

    /// Removes every session that has been idle past the limit at the current
    /// time, and only those: the table is what a sweep at some time leaves.
    pub fn reaper(&mut self)
        ensures
            final(self).storage == old(self).storage,
            exists|now: i64| sweep_effect(old(self).sessions@, final(self).sessions@, now),
    {
        let now = unixepoch();
        let _ = self.sweep(now);
    }

    /// Removes every session idle past the limit at `now` and returns their ids.
    pub fn sweep(&mut self, now: i64) -> (r: Vec<i64>)
        ensures
            final(self).storage == old(self).storage,
            sweep_effect(old(self).sessions@, final(self).sessions@, now),
            forall|k: i64|
                #[trigger] r@.contains(k) <==> old(self).sessions@.contains_key(k) && expired(
                    old(self).sessions@[k],
                    now,
                ),
            r@.no_duplicates(),
    {
        self.sessions.sweep(now)
    }
}

} // verus!
