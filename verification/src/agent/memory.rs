//! The agent's memory: the last messages of each session, held in a
//! `dashmap::DashMap` keyed by session id.

use vstd::prelude::*;
use std::collections::VecDeque;
use dashmap::DashMap;
use crate::platform::{new_uuid_text, now_millis, uuid_canonical_text};

verus! {

broadcast use vstd::std_specs::vecdeque::group_vec_dequeue_axioms;

/// One remembered message.
#[derive(Debug, Clone, PartialEq, Eq)]
pub struct MemoryMessage {
    pub id: String,
    pub content: String,
    /// `"user"` or `"assistant"`.
    pub sender: String,
    /// Milliseconds since the Unix epoch.
    pub timestamp: i64,
    /// JSON text of the message's metadata.
    pub metadata: String,
}

impl MemoryMessage {
    /// A field-by-field copy.
    pub fn duplicate(&self) -> (r: MemoryMessage)
        ensures
            r == *self,
    {
        MemoryMessage {
            id: self.id.clone(),
            content: self.content.clone(),
            sender: self.sender.clone(),
            timestamp: self.timestamp,
            metadata: self.metadata.clone(),
        }
    }
}

/// The last `n` items of `s` (all of them when there are fewer).
pub open spec fn last_n<T>(s: Seq<T>, n: nat) -> Seq<T> {
    if s.len() > n {
        s.subrange(s.len() - n, s.len() as int)
    } else {
        s
    }
}

/// The messages that a list of references points to.
pub open spec fn pointed(s: Seq<&MemoryMessage>) -> Seq<MemoryMessage> {
    s.map_values(|m: &MemoryMessage| *m)
}

/// The messages of one session, at most `max_messages` of them: the oldest
/// give way to the newest.
#[derive(Debug, Clone)]
pub struct SessionMemory {
    pub messages: VecDeque<MemoryMessage>,
    pub max_messages: usize,
    pub session_id: String,
}

impl SessionMemory {
    /// An empty memory for a session.
    pub fn new(session_id: String, max_messages: usize) -> (r: SessionMemory)
        ensures
            r.messages@ == Seq::<MemoryMessage>::empty(),
            r.max_messages == max_messages,
            r.session_id == session_id,
    {
        SessionMemory { messages: VecDeque::new(), max_messages, session_id }
    }

    /// Appends a message, then drops the oldest ones beyond `max_messages`.
    pub fn add_message(&mut self, message: MemoryMessage)
        ensures
            final(self).messages@ == last_n(old(self).messages@.push(message), old(self).max_messages as nat),
            final(self).max_messages == old(self).max_messages,
            final(self).session_id == old(self).session_id,
    {
        let ghost full = self.messages@.push(message);
        self.messages.push_back(message);
        while self.messages.len() > self.max_messages
            invariant
                self.max_messages == old(self).max_messages,
                self.session_id == old(self).session_id,
                full == old(self).messages@.push(message),
                full.len() >= self.messages@.len(),
                self.messages@.len() < full.len() ==> self.messages@.len() >= self.max_messages,
                self.messages@ == full.subrange(full.len() - self.messages@.len(), full.len() as int),
            decreases self.messages@.len(),
        {
            let _ = self.messages.pop_front();
        }
        assert(self.messages@ == last_n(full, self.max_messages as nat));
    }

    /// The last `count` messages, oldest first.
    pub fn get_recent_messages(&self, count: usize) -> (r: Vec<&MemoryMessage>)
        ensures
            pointed(r@) == last_n(self.messages@, count as nat),
    {
        let n = self.messages.len();
        let start = if n > count { n - count } else { 0 };
        let mut out: Vec<&MemoryMessage> = Vec::new();
        let mut i = start;
        while i < n
            invariant
                n == self.messages@.len(),
                start <= i <= n,
                pointed(out@) == self.messages@.subrange(start as int, i as int),
            decreases n - i,
        {
            let ghost prev = out@;
            out.push(&self.messages[i]);
            assert(pointed(out@) =~= pointed(prev).push(self.messages@[i as int])) by {
                assert forall|j: int| 0 <= j < prev.len() implies #[trigger] pointed(out@)[j] == pointed(prev)[j] by {
                    assert(out@[j] == prev[j]);
                }
            }
            assert(self.messages@.subrange(start as int, i as int).push(self.messages@[i as int]) =~= self.messages@.subrange(start as int, i + 1));
            i += 1;
        }
        out
    }

    /// All messages, oldest first.
    pub fn get_all_messages(&self) -> (r: Vec<&MemoryMessage>)
        ensures
            pointed(r@) == self.messages@,
    {
        let n = self.messages.len();
        let mut out: Vec<&MemoryMessage> = Vec::new();
        let mut i: usize = 0;
        while i < n
            invariant
                n == self.messages@.len(),
                i <= n,
                pointed(out@) == self.messages@.take(i as int),
            decreases n - i,
        {
            let ghost prev = out@;
            out.push(&self.messages[i]);
            assert(pointed(out@) =~= pointed(prev).push(self.messages@[i as int])) by {
                assert forall|j: int| 0 <= j < prev.len() implies #[trigger] pointed(out@)[j] == pointed(prev)[j] by {
                    assert(out@[j] == prev[j]);
                }
            }
            assert(self.messages@.take(i as int).push(self.messages@[i as int]) =~= self.messages@.take(i + 1));
            i += 1;
        }
        out
    }

    /// Forgets every message.
    pub fn clear(&mut self)
        ensures
            final(self).messages@ == Seq::<MemoryMessage>::empty(),
            final(self).max_messages == old(self).max_messages,
            final(self).session_id == old(self).session_id,
    {
        self.messages.clear();
    }

    /// A copy holding the same messages, limit and id.
    pub fn duplicate(&self) -> (r: SessionMemory)
        ensures
            r.messages@ == self.messages@,
            r.max_messages == self.max_messages,
            r.session_id == self.session_id,
    {
        let n = self.messages.len();
        let mut out: VecDeque<MemoryMessage> = VecDeque::new();
        let mut i: usize = 0;
        while i < n
            invariant
                n == self.messages@.len(),
                i <= n,
                out@ == self.messages@.take(i as int),
            decreases n - i,
        {
            out.push_back(self.messages[i].duplicate());
            i += 1;
        }
        assert(self.messages@.take(n as int) =~= self.messages@);
        SessionMemory { messages: out, max_messages: self.max_messages, session_id: self.session_id.clone() }
    }

    /// Copies of the messages, oldest first.
    fn message_copies(&self, from: usize) -> (r: Vec<MemoryMessage>)
        requires
            from <= self.messages@.len(),
        ensures
            r@ == self.messages@.subrange(from as int, self.messages@.len() as int),
    {
        let n = self.messages.len();
        let mut out: Vec<MemoryMessage> = Vec::new();
        let mut i = from;
        while i < n
            invariant
                n == self.messages@.len(),
                from <= i <= n,
                out@ == self.messages@.subrange(from as int, i as int),
            decreases n - i,
        {
            out.push(self.messages[i].duplicate());
            i += 1;
        }
        out
    }
}

} // verus!

verus! {

#[verifier::external_type_specification]
#[verifier::external_body]
#[verifier::reject_recursive_types(K)]
#[verifier::reject_recursive_types(V)]
#[verifier::reject_recursive_types(S)]
pub struct ExDashMap<K, V, S>(DashMap<K, V, S>);

/// Session memories by session id.
pub type SessionTable = DashMap<String, SessionMemory>;

/// The sessions that a table of session memories holds, by session id.
pub uninterp spec fn session_table(m: DashMap<String, SessionMemory>) -> Map<Seq<char>, SessionMemory>;

/// An empty table (`DashMap::new`).
#[verifier::external_body]
fn table_new() -> (r: SessionTable)
    ensures
        session_table(r).dom() == Set::<Seq<char>>::empty(),
{
    DashMap::new()
}

/// How many sessions the table holds (`DashMap::len`): the shards' lengths
/// summed, each key counted once.
#[verifier::external_body]
fn table_len(m: &DashMap<String, SessionMemory>) -> (r: usize)
    ensures
        r == session_table(*m).len(),
{
    m.len()
}

/// Puts `value` under `key`, replacing what was there (`DashMap::insert`).
#[verifier::external_body]
fn table_insert(m: &mut DashMap<String, SessionMemory>, key: String, value: SessionMemory)
    ensures
        session_table(*final(m)) == session_table(*old(m)).insert(key@, value),
{
    m.insert(key, value);
}

/// Takes the session under `key` out of the table (`DashMap::remove`).
#[verifier::external_body]
fn table_remove(m: &mut DashMap<String, SessionMemory>, key: &str) -> (r: Option<SessionMemory>)
    ensures
        session_table(*final(m)) == session_table(*old(m)).remove(key@),
        r == (if session_table(*old(m)).contains_key(key@) {
            Some(session_table(*old(m))[key@])
        } else {
            None
        }),
{
    m.remove(key).map(|(_, v)| v)
}

/// A copy of the session under `key` (`DashMap::get`), made by
/// `SessionMemory::duplicate`.
#[verifier::external_body]
fn table_get(m: &DashMap<String, SessionMemory>, key: &str) -> (r: Option<SessionMemory>)
    ensures
        match r {
            Some(s) => {
                &&& session_table(*m).contains_key(key@)
                &&& s.messages@ == session_table(*m)[key@].messages@
                &&& s.max_messages == session_table(*m)[key@].max_messages
                &&& s.session_id == session_table(*m)[key@].session_id
            },
            None => !session_table(*m).contains_key(key@),
        },
{
    m.get(key).map(|s| s.value().duplicate())
}

/// The session ids in the table (`DashMap::iter`), each once, in an order
/// that the contract leaves open.
#[verifier::external_body]
fn table_keys(m: &DashMap<String, SessionMemory>) -> (r: Vec<String>)
    ensures
        r@.map_values(|k: String| k@).no_duplicates()
            && r@.map_values(|k: String| k@).to_set() == session_table(*m).dom(),
{
    m.iter().map(|e| e.key().clone()).collect()
}

/// Empties the table (`DashMap::clear`).
#[verifier::external_body]
fn table_clear(m: &mut DashMap<String, SessionMemory>)
    ensures
        session_table(*final(m)).dom() == Set::<Seq<char>>::empty(),
{
    m.clear();
}

} // verus!

verus! {

/// `m` carries these contents, stamped with `id` and `timestamp`, and empty
/// JSON metadata.
pub open spec fn is_message(m: MemoryMessage, id: Seq<char>, content: Seq<char>, sender: Seq<char>, timestamp: i64) -> bool {
    &&& m.id@ == id
    &&& m.content@ == content
    &&& m.sender@ == sender
    &&& m.timestamp == timestamp
    &&& m.metadata@ == "{}"@
}

/// How many messages a session that the agent opens keeps.
pub open spec fn new_session_limit() -> nat {
    50
}

/// `after` is the session under `k` in `t` with `m` added; a session that
/// `t` lacks starts empty, with the default limit and `k` as its id.
pub open spec fn with_added(t: Map<Seq<char>, SessionMemory>, k: Seq<char>, m: MemoryMessage, after: SessionMemory) -> bool {
    if t.contains_key(k) {
        &&& after.messages@ == last_n(t[k].messages@.push(m), t[k].max_messages as nat)
        &&& after.max_messages == t[k].max_messages
        &&& after.session_id == t[k].session_id
    } else {
        &&& after.messages@ == last_n(seq![m], new_session_limit())
        &&& after.max_messages == new_session_limit()
        &&& after.session_id@ == k
    }
}

/// The sessions that hold at least one message.
pub open spec fn without_empty(t: Map<Seq<char>, SessionMemory>) -> Map<Seq<char>, SessionMemory> {
    t.filter_keys(|j: Seq<char>| t[j].messages@.len() > 0)
}

/// Once there are more sessions than `limit`, the empty ones go.
pub open spec fn pruned(t: Map<Seq<char>, SessionMemory>, limit: nat) -> Map<Seq<char>, SessionMemory> {
    if t.len() > limit {
        without_empty(t)
    } else {
        t
    }
}

/// `after` is `before` once a message with this content and sender, a fresh
/// identifier and some timestamp was stored under `k`.
pub open spec fn stored(
    before: Map<Seq<char>, SessionMemory>,
    limit: nat,
    k: Seq<char>,
    content: Seq<char>,
    sender: Seq<char>,
    after: Map<Seq<char>, SessionMemory>,
) -> bool {
    exists|m: MemoryMessage, s: SessionMemory|
        #![trigger with_added(before, k, m, s)]
        is_message(m, m.id@, content, sender, m.timestamp)
            && uuid_canonical_text(m.id@) == Some(m.id@)
            && with_added(before, k, m, s)
            && after == pruned(before.insert(k, s), limit)
}

/// One step of counting messages: adds those of session `k`.
pub open spec fn count_step(t: Map<Seq<char>, SessionMemory>) -> spec_fn(nat, Seq<char>) -> nat {
    |acc: nat, k: Seq<char>| acc + t[k].messages@.len()
}

/// The number of messages over the sessions in `keys`.
pub open spec fn messages_in(t: Map<Seq<char>, SessionMemory>, keys: Set<Seq<char>>) -> nat {
    keys.fold(0nat, count_step(t))
}

/// The first `i + 1` items hold `j` when the first `i` do or `j` is item `i`.
proof fn lemma_take_one_more(kv: Seq<Seq<char>>, i: int, j: Seq<char>)
    requires
        0 <= i < kv.len(),
    ensures
        kv.take(i + 1).contains(j) <==> (kv.take(i).contains(j) || j == kv[i]),
{
    if kv.take(i + 1).contains(j) {
        let a = choose|a: int| 0 <= a < i + 1 && #[trigger] kv.take(i + 1)[a] == j;
        if a < i {
            assert(kv.take(i)[a] == j);
        }
    }
    if kv.take(i).contains(j) {
        let a = choose|a: int| 0 <= a < i && #[trigger] kv.take(i)[a] == j;
        assert(kv.take(i + 1)[a] == j);
    }
    if j == kv[i] {
        assert(kv.take(i + 1)[i] == j);
    }
}

/// Message memory for many sessions.
#[derive(Debug)]
pub struct MemoryManager {
    sessions: SessionTable,
    max_sessions: usize,
}

impl MemoryManager {
    /// The sessions held, by id.
    pub closed spec fn sessions(&self) -> Map<Seq<char>, SessionMemory> {
        session_table(self.sessions)
    }

    /// Beyond this many sessions, empty ones are dropped.
    pub closed spec fn limit(&self) -> nat {
        self.max_sessions as nat
    }

    /// No sessions yet; the limit is 100.
    pub fn new() -> (r: MemoryManager)
        ensures
            r.sessions().dom() == Set::<Seq<char>>::empty(),
            r.limit() == 100,
    {
        MemoryManager { sessions: table_new(), max_sessions: 100 }
    }

    /// Stores a message with a fresh identifier and the current time.
    pub fn store_message(&mut self, session_id: &str, content: &str, sender: &str)
        ensures
            stored(old(self).sessions(), old(self).limit(), session_id@, content@, sender@, final(self).sessions()),
            final(self).limit() == old(self).limit(),
    {
        let id = new_uuid_text();
        let ghost idv = id@;
        let timestamp = now_millis();
        self.store_message_at(session_id, content, sender, id, timestamp);
        proof {
            let t = old(self).sessions();
            let (m, s) = choose|m: MemoryMessage, s: SessionMemory|
                #![trigger with_added(t, session_id@, m, s)]
                is_message(m, idv, content@, sender@, timestamp)
                    && with_added(t, session_id@, m, s)
                    && self.sessions() == pruned(t.insert(session_id@, s), self.limit());
            assert(with_added(t, session_id@, m, s));
        }
    }

    /// Stores a message with the given identifier and timestamp: the session
    /// gets it (a new session is opened for an unknown id), and once there
    /// are more sessions than the limit, the empty ones are dropped.
    pub fn store_message_at(&mut self, session_id: &str, content: &str, sender: &str, id: String, timestamp: i64)
        ensures
            exists|m: MemoryMessage, s: SessionMemory|
                #![trigger with_added(old(self).sessions(), session_id@, m, s)]
                is_message(m, id@, content@, sender@, timestamp)
                    && with_added(old(self).sessions(), session_id@, m, s)
                    && final(self).sessions() == pruned(old(self).sessions().insert(session_id@, s), old(self).limit()),
            final(self).limit() == old(self).limit(),
    {
        let ghost t = self.sessions();
        let message = MemoryMessage {
            id,
            content: String::from_str(content),
            sender: String::from_str(sender),
            timestamp,
            metadata: String::from_str("{}"),
        };
        let ghost m = message;
        let mut session = match table_remove(&mut self.sessions, session_id) {
            Some(s) => s,
            None => SessionMemory::new(String::from_str(session_id), 50),
        };
        session.add_message(message);
        let ghost s = session;
        assert(with_added(t, session_id@, m, s));
        table_insert(&mut self.sessions, String::from_str(session_id), session);
        assert(self.sessions() =~= t.insert(session_id@, s));
        if table_len(&self.sessions) > self.max_sessions {
            self.cleanup_old_sessions();
        }
    }

    /// Drops the sessions that hold no message.
    fn cleanup_old_sessions(&mut self)
        ensures
            final(self).sessions() == without_empty(old(self).sessions()),
            final(self).limit() == old(self).limit(),
    {
        let keys = table_keys(&self.sessions);
        let ghost orig = self.sessions();
        let ghost kv = keys@.map_values(|k: String| k@);
        let mut i: usize = 0;
        while i < keys.len()
            invariant
                i <= keys@.len(),
                kv == keys@.map_values(|k: String| k@),
                kv.no_duplicates(),
                kv.to_set() == orig.dom(),
                self.max_sessions == old(self).max_sessions,
                forall|j: Seq<char>| #[trigger] self.sessions().contains_key(j) <==>
                    (orig.contains_key(j) && !(kv.take(i as int).contains(j) && orig[j].messages@.len() == 0)),
                forall|j: Seq<char>| #[trigger] self.sessions().contains_key(j) ==> self.sessions()[j] == orig[j],
            decreases keys@.len() - i,
        {
            let key = &keys[i];
            let ghost k = kv[i as int];
            assert(key@ == k);
            assert(!kv.take(i as int).contains(k)) by {
                if kv.take(i as int).contains(k) {
                    let a = choose|a: int| 0 <= a < i && #[trigger] kv.take(i as int)[a] == k;
                    assert(kv[a] == kv[i as int]);
                }
            }
            assert(orig.contains_key(k)) by {
                assert(kv.to_set().contains(k));
            }
            let ghost before = self.sessions();
            assert(before.contains_key(k));
            let removed = match table_get(&self.sessions, key.as_str()) {
                Some(s) => {
                    if s.messages.len() == 0 {
                        let _ = table_remove(&mut self.sessions, key.as_str());
                        true
                    } else {
                        false
                    }
                },
                None => false,
            };
            proof {
                assert(removed ==> self.sessions() == before.remove(k) && orig[k].messages@.len() == 0);
                assert(!removed ==> self.sessions() == before && orig[k].messages@.len() > 0);
                assert forall|j: Seq<char>| #[trigger] self.sessions().contains_key(j) <==>
                    (orig.contains_key(j) && !(kv.take(i + 1).contains(j) && orig[j].messages@.len() == 0)) by {
                    lemma_take_one_more(kv, i as int, j);
                    assert(before.contains_key(j) <==>
                        (orig.contains_key(j) && !(kv.take(i as int).contains(j) && orig[j].messages@.len() == 0)));
                }
                assert forall|j: Seq<char>| #[trigger] self.sessions().contains_key(j) implies self.sessions()[j] == orig[j] by {
                    assert(before.contains_key(j));
                }
            }
            i += 1;
        }
        proof {
            assert(kv.take(keys@.len() as int) =~= kv);
            assert forall|j: Seq<char>| kv.contains(j) <==> orig.contains_key(j) by {
                assert(kv.to_set().contains(j) == kv.contains(j));
            }
            assert(self.sessions() =~= without_empty(orig));
        }
    }

    /// Copies of every message of a session, oldest first; none for an
    /// unknown session.
    pub fn get_session_messages(&self, session_id: &str) -> (r: Vec<MemoryMessage>)
        ensures
            r@ == (if self.sessions().contains_key(session_id@) {
                self.sessions()[session_id@].messages@
            } else {
                Seq::<MemoryMessage>::empty()
            }),
    {
        match table_get(&self.sessions, session_id) {
            Some(s) => {
                let r = s.message_copies(0);
                assert(s.messages@.subrange(0, s.messages@.len() as int) =~= s.messages@);
                r
            },
            None => Vec::new(),
        }
    }

    /// Copies of the last `count` messages of a session, oldest first; none
    /// for an unknown session.
    pub fn get_recent_context(&self, session_id: &str, count: usize) -> (r: Vec<MemoryMessage>)
        ensures
            r@ == (if self.sessions().contains_key(session_id@) {
                last_n(self.sessions()[session_id@].messages@, count as nat)
            } else {
                Seq::<MemoryMessage>::empty()
            }),
    {
        match table_get(&self.sessions, session_id) {
            Some(s) => {
                let n = s.messages.len();
                let from = if n > count { n - count } else { 0 };
                let r = s.message_copies(from);
                assert(s.messages@.subrange(0, n as int) =~= s.messages@);
                r
            },
            None => Vec::new(),
        }
    }

    /// Forgets the messages of one session; the session itself stays.
    pub fn clear_session(&mut self, session_id: &str)
        ensures
            final(self).limit() == old(self).limit(),
            old(self).sessions().contains_key(session_id@) ==> {
                &&& final(self).sessions() == old(self).sessions().insert(session_id@, final(self).sessions()[session_id@])
                &&& final(self).sessions()[session_id@].messages@ == Seq::<MemoryMessage>::empty()
                &&& final(self).sessions()[session_id@].max_messages == old(self).sessions()[session_id@].max_messages
                &&& final(self).sessions()[session_id@].session_id == old(self).sessions()[session_id@].session_id
            },
            !old(self).sessions().contains_key(session_id@) ==> final(self).sessions() == old(self).sessions(),
    {
        let ghost t = self.sessions();
        match table_remove(&mut self.sessions, session_id) {
            Some(mut s) => {
                s.clear();
                table_insert(&mut self.sessions, String::from_str(session_id), s);
                assert(self.sessions() =~= t.insert(session_id@, s));
            },
            None => {
                assert(self.sessions() =~= t);
            },
        }
    }

    /// Forgets every session.
    pub fn clear_all_sessions(&mut self)
        ensures
            final(self).sessions().dom() == Set::<Seq<char>>::empty(),
            final(self).limit() == old(self).limit(),
    {
        table_clear(&mut self.sessions);
    }

    /// How many sessions are held.
    pub fn get_session_count(&self) -> (r: usize)
        ensures
            r == self.sessions().len(),
    {
        table_len(&self.sessions)
    }

    /// How many messages all sessions hold together (saturating at
    /// `usize::MAX`).
    pub fn get_total_message_count(&self) -> (r: usize)
        ensures
            self.sessions().dom().finite(),
            r == (if messages_in(self.sessions(), self.sessions().dom()) <= usize::MAX {
                messages_in(self.sessions(), self.sessions().dom())
            } else {
                usize::MAX as nat
            }),
    {
        broadcast use vstd::seq_lib::seq_to_set_is_finite;
        let keys = table_keys(&self.sessions);
        let ghost t = self.sessions();
        let ghost kv = keys@.map_values(|k: String| k@);
        let ghost f = count_step(t);
        assert(vstd::set::fold::is_fun_commutative(f));
        let mut total: usize = 0;
        let mut i: usize = 0;
        assert(kv.take(0).to_set() =~= Set::<Seq<char>>::empty());
        proof { vstd::set::fold::lemma_fold_empty(0nat, f); }
        while i < keys.len()
            invariant
                i <= keys@.len(),
                kv == keys@.map_values(|k: String| k@),
                kv.no_duplicates(),
                kv.to_set() == t.dom(),
                t == self.sessions(),
                f == count_step(t),
                vstd::set::fold::is_fun_commutative(f),
                total == (if messages_in(t, kv.take(i as int).to_set()) <= usize::MAX {
                    messages_in(t, kv.take(i as int).to_set())
                } else {
                    usize::MAX as nat
                }),
            decreases keys@.len() - i,
        {
            let key = &keys[i];
            let ghost k = kv[i as int];
            assert(key@ == k);
            let ghost done = kv.take(i as int).to_set();
            assert(!done.contains(k)) by {
                if kv.take(i as int).contains(k) {
                    let a = choose|a: int| 0 <= a < i && #[trigger] kv.take(i as int)[a] == k;
                    assert(kv[a] == kv[i as int]);
                }
            }
            assert(kv.take(i + 1).to_set() =~= done.insert(k)) by {
                assert forall|j: Seq<char>| #[trigger] kv.take(i + 1).to_set().contains(j) <==> done.insert(k).contains(j) by {
                    lemma_take_one_more(kv, i as int, j);
                }
            }
            assert(t.contains_key(k)) by {
                assert(kv.to_set().contains(k));
            }
            proof { vstd::set::fold::lemma_fold_insert(done, 0nat, f, k); }
            match table_get(&self.sessions, key.as_str()) {
                Some(s) => {
                    total = total.saturating_add(s.messages.len());
                },
                None => {},
            }
            i += 1;
        }
        assert(kv.take(keys@.len() as int) =~= kv);
        total
    }
}

} // verus!

verus! {

/// Adding a message keeps a session within its limit, keeps the newest
/// messages in order, and, unless the limit is zero, ends with the message
/// just added.
pub proof fn lemma_added_message_is_kept(s: Seq<MemoryMessage>, m: MemoryMessage, max: nat)
    ensures
        last_n(s.push(m), max).len() <= max,
        last_n(s.push(m), max).len() == if s.len() + 1 <= max { s.len() + 1 } else { max },
        last_n(s.push(m), max) == s.push(m).skip(s.len() + 1 - last_n(s.push(m), max).len()),
        max > 0 ==> last_n(s.push(m), max).last() == m,
{
    let t = s.push(m);
    assert(last_n(t, max) == t.skip(t.len() - last_n(t, max).len()));
}

/// A message that `store_message` stored is the last message of its session
/// afterwards, as `get_session_messages` reads it, provided that the session
/// keeps at least one message.
pub proof fn lemma_stored_message_reads_back(
    before: Map<Seq<char>, SessionMemory>,
    limit: nat,
    k: Seq<char>,
    content: Seq<char>,
    sender: Seq<char>,
    after: Map<Seq<char>, SessionMemory>,
)
    requires
        stored(before, limit, k, content, sender, after),
        before.contains_key(k) ==> before[k].max_messages > 0,
    ensures
        after.contains_key(k),
        after[k].messages@.len() > 0,
        after[k].messages@.last().content@ == content,
        after[k].messages@.last().sender@ == sender,
{
    let (m, s) = choose|m: MemoryMessage, s: SessionMemory|
        #![trigger with_added(before, k, m, s)]
        is_message(m, m.id@, content, sender, m.timestamp)
            && uuid_canonical_text(m.id@) == Some(m.id@)
            && with_added(before, k, m, s)
            && after == pruned(before.insert(k, s), limit);
    let prev = if before.contains_key(k) { before[k].messages@ } else { Seq::<MemoryMessage>::empty() };
    let max: nat = if before.contains_key(k) { before[k].max_messages as nat } else { new_session_limit() };
    if !before.contains_key(k) {
        assert(seq![m] == prev.push(m));
    }
    lemma_added_message_is_kept(prev, m, max);
    assert(s.messages@.len() > 0);
    let t = before.insert(k, s);
    assert(t.contains_key(k) && t[k] == s);
}

/// A memory with no sessions holds no messages.
pub proof fn lemma_no_sessions_no_messages(t: Map<Seq<char>, SessionMemory>)
    requires
        t.dom() == Set::<Seq<char>>::empty(),
    ensures
        messages_in(t, t.dom()) == 0,
{
    vstd::set::fold::lemma_fold_empty(0nat, count_step(t));
}

} // verus!

verus! {

/// Every session holds at most its own limit of messages.
pub open spec fn within_limits(t: Map<Seq<char>, SessionMemory>) -> bool {
    forall|j: Seq<char>| #[trigger] t.contains_key(j) ==> t[j].messages@.len() <= t[j].max_messages
}

/// Storing a message keeps every session within its limit: the memory never
/// holds more messages for a session than that session allows.
pub proof fn lemma_store_keeps_limits(
    before: Map<Seq<char>, SessionMemory>,
    limit: nat,
    k: Seq<char>,
    content: Seq<char>,
    sender: Seq<char>,
    after: Map<Seq<char>, SessionMemory>,
)
    requires
        within_limits(before),
        stored(before, limit, k, content, sender, after),
    ensures
        within_limits(after),
{
    let (m, s) = choose|m: MemoryMessage, s: SessionMemory|
        #![trigger with_added(before, k, m, s)]
        is_message(m, m.id@, content, sender, m.timestamp)
            && uuid_canonical_text(m.id@) == Some(m.id@)
            && with_added(before, k, m, s)
            && after == pruned(before.insert(k, s), limit);
    let prev = if before.contains_key(k) { before[k].messages@ } else { Seq::<MemoryMessage>::empty() };
    let max: nat = if before.contains_key(k) { before[k].max_messages as nat } else { new_session_limit() };
    if !before.contains_key(k) {
        assert(seq![m] == prev.push(m));
    }
    lemma_added_message_is_kept(prev, m, max);
    let t = before.insert(k, s);
    assert(within_limits(t));
    assert forall|j: Seq<char>| #[trigger] after.contains_key(j) implies after[j].messages@.len() <= after[j].max_messages by {
        assert(t.contains_key(j) && after[j] == t[j]);
    }
}

/// Clearing one session (as `clear_session` does) keeps every session
/// within its limit.
pub proof fn lemma_clear_keeps_limits(before: Map<Seq<char>, SessionMemory>, after: Map<Seq<char>, SessionMemory>, k: Seq<char>)
    requires
        within_limits(before),
        before.contains_key(k) ==> {
            &&& after == before.insert(k, after[k])
            &&& after[k].messages@ == Seq::<MemoryMessage>::empty()
        },
        !before.contains_key(k) ==> after == before,
    ensures
        within_limits(after),
{
    assert forall|j: Seq<char>| #[trigger] after.contains_key(j) implies after[j].messages@.len() <= after[j].max_messages by {
        if j != k {
            assert(before.contains_key(j) && after[j] == before[j]);
        }
    }
}

/// A memory with no sessions (a new one, or one just cleared whole) is
/// within its limits.
pub proof fn lemma_empty_within_limits(t: Map<Seq<char>, SessionMemory>)
    requires
        t.dom() == Set::<Seq<char>>::empty(),
    ensures
        within_limits(t),
{
}

} // verus!
