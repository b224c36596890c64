use crate::db::{
    lists_users, Chat, ChatRecord, DatabaseError, Device, DeviceRecord, Inserter, Invitation, Message,
    MessageRecord, Retriever, StoreModel, User, UserRecord,
};
use vstd::prelude::*;

verus! {

/// Users by id, where the user at position `i` has id `i + 1`.
pub open spec fn users_by_id(v: Seq<User>) -> Map<i64, UserRecord> {
    Map::new(|k: i64| 1 <= k <= v.len(), |k: i64| v[k - 1]@)
}

/// Chats by id, where the chat at position `i` has id `i + 1`.
pub open spec fn chats_by_id(v: Seq<Chat>) -> Map<i64, ChatRecord> {
    Map::new(|k: i64| 1 <= k <= v.len(), |k: i64| v[k - 1]@)
}

/// The (chat id, user id) pairs listed in `v`.
pub open spec fn member_pairs(v: Seq<Invitation>) -> Set<(i64, i64)> {
    Set::new(
        |p: (i64, i64)|
            exists|i: int| 0 <= i < v.len() && (#[trigger] v[i]).chat_id == p.0 && v[i].user_id == p.1,
    )
}

/// A store kept in memory, for tests and for running without a database.
/// Ids are handed out in order from 1.
pub struct MemoryStore {
    users: Vec<User>,
    chats: Vec<Chat>,
    members: Vec<Invitation>,
    messages: Vec<Message>,
    devices: Vec<Device>,
}

fn copy_user(u: &User, id: i64) -> (r: User)
    ensures
        r.id == id,
        r@ == u@,
{
    User {
        id,
        name: u.name.clone(),
        surname: u.surname.clone(),
        password: u.password.clone(),
        salt: u.salt.clone(),
        last_active: u.last_active,
    }
}

fn copy_chat(c: &Chat, id: i64) -> (r: Chat)
    ensures
        r.id == id,
        r@ == c@,
{
    Chat { id, title: c.title.clone(), description: c.description.clone() }
}

fn copy_message(m: &Message) -> (r: Message)
    ensures
        r@ == m@,
{
    Message {
        content: m.content.clone(),
        timestamp: m.timestamp,
        chat_id: m.chat_id,
        user_id: m.user_id,
    }
}

fn copy_device(d: &Device) -> (r: Device)
    ensures
        r@ == d@,
{
    Device { user_id: d.user_id, ip: d.ip, name: d.name.clone(), is_active: d.is_active }
}

impl MemoryStore {
    /// An empty store.
    pub fn new() -> (r: MemoryStore)
        ensures
            r.store().users == Map::<i64, UserRecord>::empty(),
            r.store().chats == Map::<i64, ChatRecord>::empty(),
            r.store().members == Set::<(i64, i64)>::empty(),
            r.store().messages == Seq::<MessageRecord>::empty(),
            r.store().devices == Seq::<DeviceRecord>::empty(),
    {
        let r = MemoryStore {
            users: Vec::new(),
            chats: Vec::new(),
            members: Vec::new(),
            messages: Vec::new(),
            devices: Vec::new(),
        };
        assert(r.store().users == Map::<i64, UserRecord>::empty());
        assert(r.store().chats == Map::<i64, ChatRecord>::empty());
        assert(r.store().members == Set::<(i64, i64)>::empty());
        r
    }
}

impl Retriever for MemoryStore {
    closed spec fn store(&self) -> StoreModel {
        StoreModel {
            users: users_by_id(self.users@),
            chats: chats_by_id(self.chats@),
            members: member_pairs(self.members@),
            messages: self.messages@.map_values(|m: Message| m@),
            devices: self.devices@.map_values(|d: Device| d@),
        }
    }

    fn get_users(&self) -> (r: Result<Vec<User>, DatabaseError>) {
        if self.users.len() as u64 >= i64::MAX as u64 {
            return Err(DatabaseError::new("user table is full".to_string()));
        }
        let mut out: Vec<User> = Vec::new();
        let mut i: usize = 0;
        while i < self.users.len()
            invariant
                i <= self.users.len() < i64::MAX,
                out.len() == i,
                forall|j: int| 0 <= j < i ==> (#[trigger] out@[j]).id == j + 1 && out@[j]@ == self.users@[j]@,
            decreases self.users.len() - i,
        {
            out.push(copy_user(&self.users[i], (i + 1) as i64));
            i = i + 1;
        }
        proof {
            assert forall|j: int| 0 <= j < out.len() implies self.store().users.contains_key(
                (#[trigger] out@[j]).id,
            ) && self.store().users[out@[j].id] == out@[j]@ by {
                assert(users_by_id(self.users@)[(j + 1) as i64] == self.users@[j]@);
            }
            assert forall|k: i64| self.store().users.contains_key(k) implies exists|j: int|
                0 <= j < out.len() && #[trigger] out@[j].id == k by {
                assert(out@[k - 1].id == k);
            }
            assert forall|a: int, b: int| 0 <= a < b < out.len() implies out@[a].id != out@[b].id by {}
        }
        assert(lists_users(self.store(), out@));
        Ok(out)
    }

    fn get_user(&self, user_id: i64) -> (r: Result<User, DatabaseError>) {
        if 1 <= user_id && user_id as u64 <= self.users.len() as u64 {
            Ok(copy_user(&self.users[(user_id - 1) as usize], user_id))
        } else {
            Err(DatabaseError::new("no such user".to_string()))
        }
    }

    fn get_chats(&self, user_id: i64) -> (r: Result<Vec<Chat>, DatabaseError>) {
        if self.chats.len() as u64 >= i64::MAX as u64 {
            return Err(DatabaseError::new("chat table is full".to_string()));
        }
        let mut out: Vec<Chat> = Vec::new();
        let mut i: usize = 0;
        while i < self.chats.len()
            invariant
                i <= self.chats.len() < i64::MAX,
                forall|j: int|
                    0 <= j < out.len() ==> 1 <= (#[trigger] out@[j]).id <= i && self.store().members.contains(
                        (out@[j].id, user_id),
                    ) && out@[j]@ == self.chats@[out@[j].id - 1]@,
                forall|c: i64|
                    1 <= c <= i && self.store().members.contains((c, user_id)) ==> exists|j: int|
                        0 <= j < out.len() && #[trigger] out@[j].id == c,
                forall|a: int, b: int| 0 <= a < b < out.len() ==> out@[a].id < out@[b].id,
            decreases self.chats.len() - i,
        {
            let chat_id = (i + 1) as i64;
            let ghost before = out@;
            if self.is_member(chat_id, user_id) {
                out.push(copy_chat(&self.chats[i], chat_id));
                proof {
                    assert(out@[out.len() - 1].id == chat_id);
                    assert forall|c: i64|
                        1 <= c <= i + 1 && self.store().members.contains((c, user_id)) implies exists|j: int|
                        0 <= j < out.len() && #[trigger] out@[j].id == c by {
                        if c <= i {
                            let j = choose|j: int| 0 <= j < before.len() && #[trigger] before[j].id == c;
                            assert(out@[j].id == c);
                        } else {
                            assert(out@[out.len() - 1].id == c);
                        }
                    }
                }
            }
            i = i + 1;
        }
        Ok(out)
    }

    fn get_messages(&self, chat_id: i64) -> (r: Result<Vec<Message>, DatabaseError>) {
        let ghost pred = |m: MessageRecord| m.chat_id == chat_id;
        let ghost all = self.messages@.map_values(|m: Message| m@);
        let mut out: Vec<Message> = Vec::new();
        let mut i: usize = 0;
        while i < self.messages.len()
            invariant
                i <= self.messages.len(),
                all == self.messages@.map_values(|m: Message| m@),
                pred == (|m: MessageRecord| m.chat_id == chat_id),
                out@.map_values(|m: Message| m@) == all.subrange(0, i as int).filter(pred),
            decreases self.messages.len() - i,
        {
            proof {
                let s1 = all.subrange(0, i + 1);
                assert(s1.drop_last() == all.subrange(0, i as int));
                reveal_with_fuel(Seq::filter, 1);
            }
            if self.messages[i].chat_id == chat_id {
                let ghost before = out@;
                out.push(copy_message(&self.messages[i]));
                assert(out@.map_values(|m: Message| m@) == before.map_values(|m: Message| m@).push(
                    all[i as int],
                ));
            }
            i = i + 1;
        }
        assert(all.subrange(0, all.len() as int) == all);
        Ok(out)
    }

    fn get_devices(&self, user_id: i64) -> (r: Result<Vec<Device>, DatabaseError>) {
        let ghost pred = |d: DeviceRecord| d.user_id == user_id;
        let ghost all = self.devices@.map_values(|d: Device| d@);
        let mut out: Vec<Device> = Vec::new();
        let mut i: usize = 0;
        while i < self.devices.len()
            invariant
                i <= self.devices.len(),
                all == self.devices@.map_values(|d: Device| d@),
                pred == (|d: DeviceRecord| d.user_id == user_id),
                out@.map_values(|d: Device| d@) == all.subrange(0, i as int).filter(pred),
            decreases self.devices.len() - i,
        {
            proof {
                let s1 = all.subrange(0, i + 1);
                assert(s1.drop_last() == all.subrange(0, i as int));
                reveal_with_fuel(Seq::filter, 1);
            }
            if self.devices[i].user_id == user_id {
                let ghost before = out@;
                out.push(copy_device(&self.devices[i]));
                assert(out@.map_values(|d: Device| d@) == before.map_values(|d: Device| d@).push(
                    all[i as int],
                ));
            }
            i = i + 1;
        }
        assert(all.subrange(0, all.len() as int) == all);
        Ok(out)
    }
}

impl MemoryStore {
    /// Whether `user_id` is a member of `chat_id`.
    fn is_member(&self, chat_id: i64, user_id: i64) -> (r: bool)
        ensures
            r == self.store().members.contains((chat_id, user_id)),
    {
        let mut i: usize = 0;
        while i < self.members.len()
            invariant
                i <= self.members.len(),
                forall|j: int|
                    0 <= j < i ==> !((#[trigger] self.members@[j]).chat_id == chat_id
                        && self.members@[j].user_id == user_id),
            decreases self.members.len() - i,
        {
            if self.members[i].chat_id == chat_id && self.members[i].user_id == user_id {
                assert(member_pairs(self.members@).contains((chat_id, user_id)));
                return true;
            }
            i = i + 1;
        }
        assert(!member_pairs(self.members@).contains((chat_id, user_id)));
        false
    }
}

impl MemoryStore {
    /// Records a device of `device.user_id`.
    pub fn add_device(&mut self, device: Device)
        ensures
            final(self).store() == (StoreModel {
                devices: old(self).store().devices.push(device@),
                ..old(self).store()
            }),
    {
        let ghost before = self.devices@;
        self.devices.push(device);
        assert(self.devices@.map_values(|d: Device| d@) =~= before.map_values(|d: Device| d@).push(
            device@,
        ));
    }
}

impl Inserter for MemoryStore {
    fn store_message(&mut self, chat_id: i64, user_id: i64, content: &str, timestamp: i64) -> (r:
        Option<DatabaseError>) {
        if chat_id < 1 || chat_id as u64 > self.chats.len() as u64 {
            return Some(DatabaseError::new("no such chat".to_string()));
        }
        let m = Message { content: content.to_string(), timestamp, chat_id, user_id };
        let ghost before = self.messages@;
        self.messages.push(m);
        assert(self.messages@.map_values(|m: Message| m@) =~= before.map_values(|m: Message| m@).push(
            m@,
        ));
        None
    }

    fn create_user(&mut self, name: &str, surname: &str, password: &str, salt: &str) -> (r: Result<
        i64,
        DatabaseError,
    >) {
        if self.users.len() as u64 >= (i64::MAX - 1) as u64 {
            return Err(DatabaseError::new("user table is full".to_string()));
        }
        let id = self.users.len() as i64 + 1;
        let u = User {
            id,
            name: name.to_string(),
            surname: surname.to_string(),
            password: password.to_string(),
            salt: salt.to_string(),
            last_active: 0,
        };
        let ghost before = self.users@;
        self.users.push(u);
        assert(users_by_id(self.users@) =~= users_by_id(before).insert(id, u@));
        Ok(id)
    }

    fn create_chat(&mut self, title: &str, description: &str) -> (r: Result<i64, DatabaseError>) {
        if self.chats.len() as u64 >= (i64::MAX - 1) as u64 {
            return Err(DatabaseError::new("chat table is full".to_string()));
        }
        let id = self.chats.len() as i64 + 1;
        let c = Chat { id, title: title.to_string(), description: description.to_string() };
        let ghost before = self.chats@;
        self.chats.push(c);
        assert(chats_by_id(self.chats@) =~= chats_by_id(before).insert(id, c@));
        Ok(id)
    }

    fn add_user(&mut self, chat_id: i64, user_id: i64) -> (r: Option<DatabaseError>) {
        if chat_id < 1 || chat_id as u64 > self.chats.len() as u64 {
            return Some(DatabaseError::new("no such chat".to_string()));
        }
        if user_id < 1 || user_id as u64 > self.users.len() as u64 {
            return Some(DatabaseError::new("no such user".to_string()));
        }
        let ghost before = self.members@;
        self.members.push(Invitation { chat_id, user_id });
        proof {
            let after = self.members@;
            assert forall|p: (i64, i64)|
                #[trigger] member_pairs(after).contains(p) == member_pairs(before).insert(
                    (chat_id, user_id),
                ).contains(p) by {
                if member_pairs(before).contains(p) {
                    let i = choose|i: int|
                        0 <= i < before.len() && (#[trigger] before[i]).chat_id == p.0
                            && before[i].user_id == p.1;
                    assert(after[i] == before[i]);
                }
                if member_pairs(after).contains(p) && p != (chat_id, user_id) {
                    let i = choose|i: int|
                        0 <= i < after.len() && (#[trigger] after[i]).chat_id == p.0
                            && after[i].user_id == p.1;
                    assert(i < before.len());
                    assert(after[i] == before[i]);
                }
                if p == (chat_id, user_id) {
                    assert(after[before.len() as int].chat_id == p.0);
                }
            }
            assert(member_pairs(after) =~= member_pairs(before).insert((chat_id, user_id)));
        }
        None
    }

    fn update_last_activity(&mut self, user_id: i64, now: i64) -> (r: Option<DatabaseError>) {
        if user_id < 1 || user_id as u64 > self.users.len() as u64 {
            return Some(DatabaseError::new("no such user".to_string()));
        }
        let idx = (user_id - 1) as usize;
        let mut u = copy_user(&self.users[idx], user_id);
        u.last_active = now;
        let ghost before = self.users@;
        self.users.set(idx, u);
        assert(users_by_id(self.users@) =~= users_by_id(before).insert(
            user_id,
            UserRecord { last_active: now, ..users_by_id(before)[user_id] },
        ));
        None
    }
}

} // verus!
