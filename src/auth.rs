use std::collections::HashMap;
use vstd::prelude::*;

verus! {

/// Whether `c` is an ASCII decimal digit.
pub open spec fn is_digit(c: char) -> bool {
    '0' <= c <= '9'
}

/// The value of a string of decimal digits, most significant first.
pub open spec fn digits_value(s: Seq<char>) -> int
    decreases s.len(),
{
    if s.len() == 0 {
        0
    } else {
        digits_value(s.drop_last()) * 10 + (s.last() as int - '0' as int)
    }
}

/// Whether `s` is a non-empty string of decimal digits.
pub open spec fn all_digits(s: Seq<char>) -> bool {
    s.len() > 0 && forall|i: int| 0 <= i < s.len() ==> is_digit(#[trigger] s[i])
}

/// The integer written in `s`: an optional `+` or `-`, then decimal digits.
pub open spec fn decimal_value(s: Seq<char>) -> Option<int> {
    if s.len() > 0 && s[0] == '-' && all_digits(s.skip(1)) {
        Some(-digits_value(s.skip(1)))
    } else if s.len() > 0 && s[0] == '+' && all_digits(s.skip(1)) {
        Some(digits_value(s.skip(1)))
    } else if all_digits(s) {
        Some(digits_value(s))
    } else {
        None
    }
}

/// The session id written in `s` as decimal text, when it is one and fits in an `i64`.
pub open spec fn parse_session_id(s: Seq<char>) -> Option<i64> {
    match decimal_value(s) {
        Some(v) => if i64::MIN <= v <= i64::MAX {
            Some(v as i64)
        } else {
            None
        },
        None => None,
    }
}

/// Relies on `i64::from_str_radix` with radix 10: it accepts an optional `+` or `-`
/// followed by ASCII digits only, and fails on anything else or on overflow.
#[verifier::external_body]
fn parse_decimal_i64(text: &str) -> (r: Option<i64>)
    ensures
        r == parse_session_id(text@),
{
    match i64::from_str_radix(text, 10) {
        Ok(v) => Some(v),
        Err(_) => None,
    }
}

/// How many random ids a new session may draw before giving up on finding a free one.
pub const MAX_ID_DRAWS: usize = 8;

/// Seconds of inactivity after which a session may be reaped.
pub const IDLE_LIMIT: i64 = 90;

/// Whether a session last active at `s.timestamp` has been idle past the limit at `now`.
pub open spec fn expired(s: Session, now: i64) -> bool {
    s.timestamp + IDLE_LIMIT < now
}

/// Whether some live session in `m` belongs to `user_id`.
pub open spec fn has_session_of(m: Map<i64, Session>, user_id: i64) -> bool {
    exists|k: i64| m.contains_key(k) && #[trigger] m[k].user_id == user_id
}

/// Whether `s` is idle past the limit at `now`, computed without overflow.
fn is_expired(s: &Session, now: i64) -> (r: bool)
    ensures
        r == expired(*s, now),
{
    if now < i64::MIN + IDLE_LIMIT {
        false
    } else {
        s.timestamp < now - IDLE_LIMIT
    }
}

/// The owner of the live session in `m` whose id is written in `text`.
pub open spec fn validated(m: Map<i64, Session>, text: Seq<char>) -> Option<i64> {
    match parse_session_id(text) {
        Some(sid) => if m.contains_key(sid) {
            Some(m[sid].user_id)
        } else {
            None
        },
        None => None,
    }
}

/// `after` holds exactly the sessions of `before` that are not expired at `now`, unchanged.
pub open spec fn sweep_effect(before: Map<i64, Session>, after: Map<i64, Session>, now: i64) -> bool {
    &&& forall|k: i64|
        #[trigger] after.contains_key(k) <==> before.contains_key(k) && !expired(before[k], now)
    &&& forall|k: i64| #[trigger] after.contains_key(k) ==> after[k] == before[k]
}

/// What the store keeps about one live session.
#[derive(Clone, Copy, Debug, PartialEq, Eq, Structural)]
pub struct Session {
    pub user_id: i64,
    pub timestamp: i64,
}

impl Session {
    /// A session owned by `user_id`, last active at `timestamp`.
    pub fn new(user_id: i64, timestamp: i64) -> (r: Session)
        ensures
            r == (Session { user_id, timestamp }),
    {
        Session { user_id, timestamp }
    }
}

/// The table of live sessions, keyed by session id.
pub struct SessionStore {
    map: HashMap<i64, Session>,
}

impl View for SessionStore {
    type V = Map<i64, Session>;

    closed spec fn view(&self) -> Map<i64, Session> {
        self.map@
    }
}

impl SessionStore {
    /// An empty table.
    pub fn new() -> (r: SessionStore)
        ensures
            r@ == Map::<i64, Session>::empty(),
    {
        SessionStore { map: HashMap::new() }
    }

    /// The owner of the session whose id is written in `text` as a decimal
    /// integer; `None` when the text is not such an integer or names no live session.
    pub fn validate(&self, text: &str) -> (r: Option<i64>)
        ensures
            r == validated(self@, text@),
    {
        match parse_decimal_i64(text) {
            Some(sid) => self.lookup(sid),
            None => None,
        }
    }

    /// Number of live sessions.
    pub fn len(&self) -> (r: usize)
        ensures
            r == self@.len(),
    {
        broadcast use vstd::std_specs::hash::group_hash_axioms;
        self.map.len()
    }

    /// Adds a session for `user_id` under `sid`, unless `sid` is already live;
    /// a live session is never overwritten.
    pub fn insert_with_id(&mut self, sid: i64, user_id: i64, now: i64) -> (r: bool)
        ensures
            r == !old(self)@.contains_key(sid),
            r ==> final(self)@ == old(self)@.insert(sid, Session { user_id, timestamp: now }),
            !r ==> final(self)@ == old(self)@,
    {
        broadcast use vstd::std_specs::hash::group_hash_axioms;
        if self.map.contains_key(&sid) {
            false
        } else {
            self.map.insert(sid, Session::new(user_id, now));
            true
        }
    }

    /// Adds a session for `user_id`, last active at `now`, under a freshly drawn
    /// random id that no live session holds, and returns that id. A live session
    /// is never overwritten: after `MAX_ID_DRAWS` ids that were all taken it gives
    /// up and returns `None`, changing nothing. On an empty table the first id
    /// drawn is free, so it always succeeds there.
    pub fn insert(&mut self, user_id: i64, now: i64) -> (r: Option<i64>)
        ensures
            r matches Some(sid) ==> !old(self)@.contains_key(sid) && final(self)@ == old(self)@.insert(
                sid,
                Session { user_id, timestamp: now },
            ),
            r is None ==> final(self)@ == old(self)@,
            old(self)@.is_empty() ==> r is Some,
    {
        let mut draws: usize = 0;
        while draws < MAX_ID_DRAWS
            invariant
                self@ == old(self)@,
                draws > 0 ==> !old(self)@.is_empty(),
            decreases MAX_ID_DRAWS - draws,
        {
            let sid = rand::random::<i64>();
            if self.insert_with_id(sid, user_id, now) {
                return Some(sid);
            }
            draws = draws + 1;
        }
        None
    }

    /// Refreshes the activity time of session `sid` and returns its owner;
    /// `None`, with nothing changed, when `sid` is not live.
    pub fn touch(&mut self, sid: i64, now: i64) -> (r: Option<i64>)
        ensures
            old(self)@.contains_key(sid) ==> r == Some(old(self)@[sid].user_id) && final(self)@
                == old(self)@.insert(
                sid,
                Session { user_id: old(self)@[sid].user_id, timestamp: now },
            ),
            !old(self)@.contains_key(sid) ==> r is None && final(self)@ == old(self)@,
    {
        broadcast use vstd::std_specs::hash::group_hash_axioms;
        let owner = match self.map.get(&sid) {
            Some(s) => Some(s.user_id),
            None => None,
        };
        match owner {
            Some(uid) => {
                self.map.insert(sid, Session::new(uid, now));
                Some(uid)
            },
            None => None,
        }
    }

    /// Whether any live session belongs to `user_id`; a scan of all live sessions.
    pub fn is_active_for_user(&self, user_id: i64) -> (r: bool)
        ensures
            r == has_session_of(self@, user_id),
    {
        broadcast use vstd::std_specs::hash::group_hash_axioms;
        let mut found = false;
        for entry in it: self.map.iter()
            invariant
                found ==> has_session_of(self@, user_id),
                !found ==> forall|j: int|
                    0 <= j < it.index() ==> (#[trigger] it.seq()[j]).1.user_id != user_id,
                forall|j: int|
                    0 <= j < it.seq().len() ==> self@.contains_key(*(#[trigger] it.seq()[j]).0)
                        && self@[*it.seq()[j].0] == *it.seq()[j].1,
                forall|k: i64| #[trigger]
                    self@.contains_key(k) ==> it.seq().contains((&k, &self@[k])),
        {
            if entry.1.user_id == user_id {
                found = true;
            }
        }
        found
    }

    /// Removes every session idle past the limit at `now` and returns their ids.
    /// The expired ids are all collected first, then all removed, under one
    /// exclusive borrow of the table.
    pub fn sweep(&mut self, now: i64) -> (r: Vec<i64>)
        ensures
            sweep_effect(old(self)@, final(self)@, now),
            forall|k: i64|
                #[trigger] r@.contains(k) <==> old(self)@.contains_key(k) && expired(
                    old(self)@[k],
                    now,
                ),
            r@.no_duplicates(),
    {
        broadcast use vstd::std_specs::hash::group_hash_axioms;
        broadcast use vstd::seq_lib::group_seq_properties;
        let mut stale: Vec<i64> = Vec::new();
        for entry in it: self.map.iter()
            invariant
                forall|j: int|
                    0 <= j < it.seq().len() ==> self@.contains_key(*(#[trigger] it.seq()[j]).0)
                        && self@[*it.seq()[j].0] == *it.seq()[j].1,
                forall|k: i64| #[trigger]
                    self@.contains_key(k) ==> it.seq().contains((&k, &self@[k])),
                it.seq().no_duplicates(),
                forall|k: i64|
                    #[trigger] stale@.contains(k) <==> exists|j: int|
                        0 <= j < it.index() && *(#[trigger] it.seq()[j]).0 == k && expired(
                            *it.seq()[j].1,
                            now,
                        ),
                stale@.no_duplicates(),
        {
            proof {
                let j0 = it.index();
                assert forall|j: int| 0 <= j < j0 implies *it.seq()[j].0 != *entry.0 by {
                    if *it.seq()[j].0 == *entry.0 {
                        assert(it.seq()[j] == it.seq()[j0]);
                    }
                }
            }
            if is_expired(entry.1, now) {
                let ghost prev = stale@;
                stale.push(*entry.0);
                proof {
                    assert forall|k: i64| #[trigger] prev.contains(k) implies k != *entry.0 by {}
                    assert forall|k: i64| #[trigger] stale@.contains(k) <==> (prev.contains(k) || k == *entry.0) by {
                        if stale@.contains(k) && k != *entry.0 {
                            let x = choose|x: int| 0 <= x < stale@.len() && stale@[x] == k;
                            assert(prev[x] == k);
                        }
                        if prev.contains(k) {
                            let x = choose|x: int| 0 <= x < prev.len() && prev[x] == k;
                            assert(stale@[x] == k);
                        }
                        if k == *entry.0 {
                            assert(stale@[prev.len() as int] == k);
                        }
                    }
                    assert forall|x: int, y: int| 0 <= x < stale@.len() && 0 <= y < stale@.len() && x != y implies stale@[x] != stale@[y] by {
                        if x < prev.len() && y < prev.len() {
                        } else if x < prev.len() {
                            assert(prev.contains(prev[x]));
                        } else {
                            assert(prev.contains(prev[y]));
                        }
                    }
                }
            }
        }
        let ghost before = self@;
        let mut i: usize = 0;
        while i < stale.len()
            invariant
                i <= stale@.len(),
                forall|k: i64|
                    #[trigger] stale@.contains(k) ==> before.contains_key(k) && expired(before[k], now),
                forall|k: i64|
                    #[trigger] self@.contains_key(k) <==> before.contains_key(k)
                        && !stale@.subrange(0, i as int).contains(k),
                forall|k: i64| #[trigger] self@.contains_key(k) ==> self@[k] == before[k],
            decreases stale@.len() - i,
        {
            let sid = stale[i];
            let ghost unswept = self@;
            self.map.remove(&sid);
            assert(self@ == unswept.remove(sid));
            proof {
                let sub = stale@.subrange(0, i as int);
                let sub1 = stale@.subrange(0, i + 1);
                assert(sub1 == sub.push(sid));
                assert forall|k: i64| #[trigger] sub1.contains(k) <==> (sub.contains(k) || k == sid) by {
                    if sub1.contains(k) && k != sid {
                        let x = choose|x: int| 0 <= x < sub1.len() && sub1[x] == k;
                        assert(sub[x] == k);
                    }
                    if sub.contains(k) {
                        let x = choose|x: int| 0 <= x < sub.len() && sub[x] == k;
                        assert(sub1[x] == k);
                    }
                    if k == sid {
                        assert(sub1[i as int] == k);
                    }
                }
            }
            i = i + 1;
        }
        assert(stale@.subrange(0, stale@.len() as int) == stale@);
        stale
    }

    /// Ends session `sid`; ending one that is not live changes nothing.
    pub fn remove(&mut self, sid: i64)
        ensures
            final(self)@ == old(self)@.remove(sid),
    {
        broadcast use vstd::std_specs::hash::group_hash_axioms;
        self.map.remove(&sid);
    }

    /// The owner of session `sid`, if it is live.
    pub fn lookup(&self, sid: i64) -> (r: Option<i64>)
        ensures
            r == (if self@.contains_key(sid) { Some(self@[sid].user_id) } else { None }),
    {
        broadcast use vstd::std_specs::hash::group_hash_axioms;
        match self.map.get(&sid) {
            Some(s) => Some(s.user_id),
            None => None,
        }
    }
}

/// A session opened for `user_id` under `sid` is reported as owned by `user_id`
/// when its id is validated. It stays so when it is refreshed, when another
/// session is opened or ended, and through a sweep at a time when it has not
/// expired. Ending it, or a sweep after it expired, makes its id invalid.
pub proof fn lemma_session_valid_until_removed(
    m: Map<i64, Session>,
    sid: i64,
    user_id: i64,
    t: i64,
    text: Seq<char>,
    other: i64,
    other_session: Session,
    refreshed_at: i64,
    swept: Map<i64, Session>,
    now: i64,
)
    requires
        parse_session_id(text) == Some(sid),
    ensures
        ({
            let opened = m.insert(sid, Session { user_id, timestamp: t });
            &&& validated(opened, text) == Some(user_id)
            &&& validated(opened.insert(sid, Session { user_id, timestamp: refreshed_at }), text)
                == Some(user_id)
            &&& other != sid ==> validated(opened.insert(other, other_session), text) == Some(
                user_id,
            )
            &&& other != sid ==> validated(opened.remove(other), text) == Some(user_id)
            &&& validated(opened.remove(sid), text) is None
            &&& sweep_effect(opened, swept, now) && !expired(opened[sid], now) ==> validated(
                swept,
                text,
            ) == Some(user_id)
            &&& sweep_effect(opened, swept, now) && expired(opened[sid], now) ==> validated(
                swept,
                text,
            ) is None
        }),
{
    let opened = m.insert(sid, Session { user_id, timestamp: t });
    if sweep_effect(opened, swept, now) && !expired(opened[sid], now) {
        assert(swept.contains_key(sid));
    }
}

/// Ending a session twice leaves the table as ending it once.
pub proof fn lemma_logout_idempotent(m: Map<i64, Session>, sid: i64)
    ensures
        m.remove(sid).remove(sid) == m.remove(sid),
{
    assert(m.remove(sid).remove(sid) =~= m.remove(sid));
}

/// At a sweep at `now`, a session last active more than the limit before `now`
/// is removed, and a session refreshed at `touched_at`, no more than the limit
/// before `now`, is kept with its owner.
pub proof fn lemma_sweep_respects_idle_limit(
    m: Map<i64, Session>,
    stale: i64,
    sid: i64,
    owner: i64,
    touched_at: i64,
    swept: Map<i64, Session>,
    now: i64,
)
    requires
        stale != sid,
        m.contains_key(stale),
        m[stale].timestamp + IDLE_LIMIT < now,
        now <= touched_at + IDLE_LIMIT,
        sweep_effect(m.insert(sid, Session { user_id: owner, timestamp: touched_at }), swept, now),
    ensures
        !swept.contains_key(stale),
        swept.contains_key(sid),
        swept[sid].user_id == owner,
{
    let touched = m.insert(sid, Session { user_id: owner, timestamp: touched_at });
    assert(touched.contains_key(stale) && expired(touched[stale], now));
    assert(touched.contains_key(sid) && !expired(touched[sid], now));
    assert(swept.contains_key(sid));
    assert(swept[sid] == touched[sid]);
}

/// Two sessions opened one after the other, each under an id that no live session
/// held, have distinct ids; each is validated to its own owner, and ending either
/// one leaves the other valid.
pub proof fn lemma_two_sessions_independent(
    m: Map<i64, Session>,
    s1: i64,
    first: Session,
    s2: i64,
    second: Session,
    text1: Seq<char>,
    text2: Seq<char>,
)
    requires
        !m.contains_key(s1),
        !m.insert(s1, first).contains_key(s2),
        parse_session_id(text1) == Some(s1),
        parse_session_id(text2) == Some(s2),
    ensures
        ({
            let both = m.insert(s1, first).insert(s2, second);
            &&& s1 != s2
            &&& validated(both, text1) == Some(first.user_id)
            &&& validated(both, text2) == Some(second.user_id)
            &&& validated(both.remove(s1), text2) == Some(second.user_id)
            &&& validated(both.remove(s2), text1) == Some(first.user_id)
        }),
{
}

} // verus!
