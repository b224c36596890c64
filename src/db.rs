use vstd::prelude::*;

verus! {

/// A failure reported by a storage backend; the message is only carried, never read.
#[derive(Debug)]
pub struct DatabaseError {
    pub message: String,
}

impl DatabaseError {
    /// An error carrying `message`.
    pub fn new(message: String) -> (r: DatabaseError)
        ensures
            r.message@ == message@,
    {
        DatabaseError { message }
    }
}

/// A registered user, as a backend returns it.
#[derive(Debug, Clone)]
pub struct User {
    pub id: i64,
    pub name: String,
    pub surname: String,
    /// Hex digest of the salt followed by the password; never the password itself.
    pub password: String,
    pub salt: String,
    pub last_active: i64,
}

impl User {
    /// A user with the given fields.
    pub fn new(
        id: i64,
        name: String,
        surname: String,
        password: String,
        salt: String,
        last_active: i64,
    ) -> (r: User)
        ensures
            r.id == id,
            r@ == (UserRecord {
                name: name@,
                surname: surname@,
                password: password@,
                salt: salt@,
                last_active,
            }),
    {
        User { id, name, surname, password, salt, last_active }
    }
}

/// What the store holds about one user.
pub struct UserRecord {
    pub name: Seq<char>,
    pub surname: Seq<char>,
    pub password: Seq<char>,
    pub salt: Seq<char>,
    pub last_active: i64,
}

impl View for User {
    type V = UserRecord;

    open spec fn view(&self) -> UserRecord {
        UserRecord {
            name: self.name@,
            surname: self.surname@,
            password: self.password@,
            salt: self.salt@,
            last_active: self.last_active,
        }
    }
}

/// A chat room.
#[derive(Debug, Clone)]
pub struct Chat {
    pub id: i64,
    pub title: String,
    pub description: String,
}

impl Chat {
    /// A chat with the given fields.
    pub fn new(id: i64, title: String, description: String) -> (r: Chat)
        ensures
            r.id == id,
            r@ == (ChatRecord { title: title@, description: description@ }),
    {
        Chat { id, title, description }
    }
}

/// What the store holds about one chat.
pub struct ChatRecord {
    pub title: Seq<char>,
    pub description: Seq<char>,
}

impl View for Chat {
    type V = ChatRecord;

    open spec fn view(&self) -> ChatRecord {
        ChatRecord { title: self.title@, description: self.description@ }
    }
}

/// Membership of a user in a chat.
#[derive(Debug, Clone, Copy, PartialEq, Eq, Structural)]
pub struct Invitation {
    pub chat_id: i64,
    pub user_id: i64,
}

impl Invitation {
    /// Membership of `user_id` in `chat_id`.
    pub fn new(chat_id: i64, user_id: i64) -> (r: Invitation)
        ensures
            r == (Invitation { chat_id, user_id }),
    {
        Invitation { chat_id, user_id }
    }
}

/// A device that a user logged in from; the address is IPv4, octets in order.
#[derive(Debug, Clone)]
pub struct Device {
    pub user_id: i64,
    pub ip: [u8; 4],
    pub name: String,
    pub is_active: bool,
}

impl Device {
    /// A device with the given fields.
    pub fn new(user_id: i64, ip: [u8; 4], name: String, is_active: bool) -> (r: Device)
        ensures
            r@ == (DeviceRecord { user_id, ip: ip@, name: name@, is_active }),
    {
        Device { user_id, ip, name, is_active }
    }
}

/// What the store holds about one device.
pub struct DeviceRecord {
    pub user_id: i64,
    pub ip: Seq<u8>,
    pub name: Seq<char>,
    pub is_active: bool,
}

impl View for Device {
    type V = DeviceRecord;

    open spec fn view(&self) -> DeviceRecord {
        DeviceRecord { user_id: self.user_id, ip: self.ip@, name: self.name@, is_active: self.is_active }
    }
}

/// A message posted to a chat; the timestamp is in Unix seconds.
#[derive(Debug, Clone)]
pub struct Message {
    pub content: String,
    pub timestamp: i64,
    pub chat_id: i64,
    pub user_id: i64,
}

impl Message {
    /// A message with the given fields.
    pub fn new(content: String, timestamp: i64, chat_id: i64, user_id: i64) -> (r: Message)
        ensures
            r@ == (MessageRecord { content: content@, timestamp, chat_id, user_id }),
    {
        Message { content, timestamp, chat_id, user_id }
    }
}

/// What the store holds about one message.
pub struct MessageRecord {
    pub content: Seq<char>,
    pub timestamp: i64,
    pub chat_id: i64,
    pub user_id: i64,
}

impl View for Message {
    type V = MessageRecord;

    open spec fn view(&self) -> MessageRecord {
        MessageRecord {
            content: self.content@,
            timestamp: self.timestamp,
            chat_id: self.chat_id,
            user_id: self.user_id,
        }
    }
}

/// The whole content of a store: users and chats by id, memberships as
/// (chat id, user id) pairs, messages and devices in the order they were added.
pub struct StoreModel {
    pub users: Map<i64, UserRecord>,
    pub chats: Map<i64, ChatRecord>,
    pub members: Set<(i64, i64)>,
    pub messages: Seq<MessageRecord>,
    pub devices: Seq<DeviceRecord>,
}

/// The record that registration stores for a new user.
pub open spec fn new_user_record(
    name: Seq<char>,
    surname: Seq<char>,
    password: Seq<char>,
    salt: Seq<char>,
) -> UserRecord {
    UserRecord { name, surname, password, salt, last_active: 0 }
}

/// `r` lists exactly the users of the store, each once.
pub open spec fn lists_users(m: StoreModel, r: Seq<User>) -> bool {
    &&& forall|i: int|
        0 <= i < r.len() ==> m.users.contains_key((#[trigger] r[i]).id) && m.users[r[i].id] == r[i]@
    &&& forall|k: i64| m.users.contains_key(k) ==> exists|i: int| 0 <= i < r.len() && #[trigger] r[i].id == k
    &&& forall|i: int, j: int| 0 <= i < j < r.len() ==> r[i].id != r[j].id
}

/// `r` lists exactly the chats that `user_id` is a member of, each once.
pub open spec fn lists_chats_of(m: StoreModel, user_id: i64, r: Seq<Chat>) -> bool {
    &&& forall|i: int|
        0 <= i < r.len() ==> m.members.contains((#[trigger] r[i].id, user_id)) && m.chats.contains_key(
            r[i].id,
        ) && m.chats[r[i].id] == r[i]@
    &&& forall|c: i64|
        m.members.contains((c, user_id)) && m.chats.contains_key(c) ==> exists|i: int|
            0 <= i < r.len() && #[trigger] r[i].id == c
    &&& forall|i: int, j: int| 0 <= i < j < r.len() ==> r[i].id != r[j].id
}

/// Read access to a store.
pub trait Retriever {
    /// The store's content, as each backend defines it.
    spec fn store(&self) -> StoreModel;

    /// Every user, each once.
    fn get_users(&self) -> (r: Result<Vec<User>, DatabaseError>)
        ensures
            r matches Ok(v) ==> lists_users(self.store(), v@),
    ;

    /// The user with id `user_id`; an error when there is none.
    fn get_user(&self, user_id: i64) -> (r: Result<User, DatabaseError>)
        ensures
            r matches Ok(u) ==> self.store().users.contains_key(user_id) && u.id == user_id && u@
                == self.store().users[user_id],
            !self.store().users.contains_key(user_id) ==> r is Err,
    ;

    /// The chats that `user_id` is a member of.
    fn get_chats(&self, user_id: i64) -> (r: Result<Vec<Chat>, DatabaseError>)
        ensures
            r matches Ok(v) ==> lists_chats_of(self.store(), user_id, v@),
    ;

    /// The messages of chat `chat_id`, in the order they were stored.
    fn get_messages(&self, chat_id: i64) -> (r: Result<Vec<Message>, DatabaseError>)
        ensures
            r matches Ok(v) ==> v@.map_values(|m: Message| m@) == self.store().messages.filter(
                |m: MessageRecord| m.chat_id == chat_id,
            ),
    ;

    /// The devices of `user_id`, in the order they were added.
    fn get_devices(&self, user_id: i64) -> (r: Result<Vec<Device>, DatabaseError>)
        ensures
            r matches Ok(v) ==> v@.map_values(|d: Device| d@) == self.store().devices.filter(
                |d: DeviceRecord| d.user_id == user_id,
            ),
    ;
}

/// Write access to a store. A call that reports an error leaves the store as it was.
pub trait Inserter: Retriever {
    /// Appends a message from `user_id` to chat `chat_id`, stamped `timestamp`.
    fn store_message(&mut self, chat_id: i64, user_id: i64, content: &str, timestamp: i64) -> (r:
        Option<DatabaseError>)
        ensures
            r is None ==> final(self).store() == (StoreModel {
                messages: old(self).store().messages.push(
                    MessageRecord { content: content@, timestamp, chat_id, user_id },
                ),
                ..old(self).store()
            }),
            r is Some ==> final(self).store() == old(self).store(),
    ;

    /// Adds a user with the given digest and salt under a fresh id, and returns the id.
    fn create_user(&mut self, name: &str, surname: &str, password: &str, salt: &str) -> (r: Result<
        i64,
        DatabaseError,
    >)
        ensures
            r matches Ok(id) ==> !old(self).store().users.contains_key(id) && final(self).store() == (
            StoreModel {
                users: old(self).store().users.insert(
                    id,
                    new_user_record(name@, surname@, password@, salt@),
                ),
                ..old(self).store()
            }),
            r is Err ==> final(self).store() == old(self).store(),
    ;

    /// Adds a chat under a fresh id, with no members, and returns the id.
    fn create_chat(&mut self, title: &str, description: &str) -> (r: Result<i64, DatabaseError>)
        ensures
            r matches Ok(id) ==> !old(self).store().chats.contains_key(id) && final(self).store() == (
            StoreModel {
                chats: old(self).store().chats.insert(
                    id,
                    ChatRecord { title: title@, description: description@ },
                ),
                ..old(self).store()
            }),
            r is Err ==> final(self).store() == old(self).store(),
    ;

    /// Makes `user_id` a member of `chat_id`.
    fn add_user(&mut self, chat_id: i64, user_id: i64) -> (r: Option<DatabaseError>)
        ensures
            r is None ==> final(self).store() == (StoreModel {
                members: old(self).store().members.insert((chat_id, user_id)),
                ..old(self).store()
            }),
            r is Some ==> final(self).store() == old(self).store(),
    ;

    /// Sets the last activity time of `user_id` to `now`.
    fn update_last_activity(&mut self, user_id: i64, now: i64) -> (r: Option<DatabaseError>)
        ensures
            r is None ==> old(self).store().users.contains_key(user_id) && final(self).store() == (
            StoreModel {
                users: old(self).store().users.insert(
                    user_id,
                    UserRecord { last_active: now, ..old(self).store().users[user_id] },
                ),
                ..old(self).store()
            }),
            r is Some ==> final(self).store() == old(self).store(),
    ;
}

} // verus!
