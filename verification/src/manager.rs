//! Session manager — per-session state keyed by the session key's text.
//!
//! Sessions live in a concurrent sharded map from the `dashmap` crate.
//! The map is opaque here: its contents are named by `session_map_contents`,
//! and every operation goes through a trusted wrapper whose contract says
//! what the call does to those contents.

use vstd::prelude::*;

use crate::history::ConversationHistory;
use crate::keys::{key_text, SessionKey};
use crate::memory::{MemoryMessage, MessageRole};

verus! {

/// A single conversation session.
#[derive(Debug)]
pub struct Session {
    pub key: SessionKey,
    pub history: ConversationHistory,
    pub summary: Option<String>,
    /// Number of turns added since history was summarized last.
    pub turns_since_summary: usize,
}

impl Session {
    pub fn new(key: SessionKey) -> (r: Self)
        ensures
            r.key == key,
            r.history@ == Seq::<MemoryMessage>::empty(),
            r.summary is None,
            r.turns_since_summary == 0,
    {
        Session {
            key,
            history: ConversationHistory::new(),
            summary: None,
            turns_since_summary: 0,
        }
    }
}

/// Sessions that agree in everything observable: the key's fields, the
/// message history, the summary text, and the turn counter.
pub open spec fn session_eq(a: Session, b: Session) -> bool {
    &&& a.key.tenant_id@ == b.key.tenant_id@
    &&& a.key.agent_id@ == b.key.agent_id@
    &&& a.key.channel@ == b.key.channel@
    &&& a.key.peer_id@ == b.key.peer_id@
    &&& a.history@ == b.history@
    &&& match (a.summary, b.summary) {
        (Some(x), Some(y)) => x@ == y@,
        (None, None) => true,
        _ => false,
    }
    &&& a.turns_since_summary == b.turns_since_summary
}

#[verifier::external_type_specification]
#[verifier::external_body]
#[verifier::reject_recursive_types(K)]
#[verifier::reject_recursive_types(V)]
#[verifier::reject_recursive_types(S)]
pub struct ExDashMap<K, V, S>(dashmap::DashMap<K, V, S>);

/// Two stores that agree on every key but `kt`.
pub open spec fn same_except(
    m0: Map<Seq<char>, Session>,
    m1: Map<Seq<char>, Session>,
    kt: Seq<char>,
) -> bool {
    forall|t: Seq<char>|
        t != kt ==> (#[trigger] m1.contains_key(t) == m0.contains_key(t) && (m0.contains_key(t)
            ==> m1[t] == m0[t]))
}

/// A session store with nothing in it.
pub open spec fn no_sessions() -> Map<Seq<char>, Session> {
    Map::empty()
}

/// What the session map holds, keyed by the session key's text.
pub uninterp spec fn session_map_contents(m: dashmap::DashMap<String, Session>) -> Map<
    Seq<char>,
    Session,
>;

/// Relies on `dashmap::DashMap::new`: an empty map.
#[verifier::external_body]
fn sessions_new() -> (r: dashmap::DashMap<String, Session>)
    ensures
        session_map_contents(r) == no_sessions(),
{
    dashmap::DashMap::new()
}

/// Relies on `dashmap::DashMap::insert`: the value is stored under the
/// key, replacing any previous value; no other key changes.
#[verifier::external_body]
fn sessions_insert(m: &mut dashmap::DashMap<String, Session>, k: String, v: Session)
    ensures
        session_map_contents(*final(m)) == session_map_contents(*old(m)).insert(k@, v),
{
    m.insert(k, v);
}

/// Relies on `dashmap::DashMap::get`: the value stored under the key, if
/// present, handed out as a copy that observably agrees with it.
#[verifier::external_body]
fn sessions_get(m: &dashmap::DashMap<String, Session>, k: &String) -> (r: Option<Session>)
    ensures
        match r {
            Some(v) => session_map_contents(*m).contains_key(k@) && session_eq(
                v,
                session_map_contents(*m)[k@],
            ),
            None => !session_map_contents(*m).contains_key(k@),
        },
{
    match m.get(k) {
        Some(entry) => Some(
            Session {
                key: entry.value().key.clone(),
                history: entry.value().history.clone(),
                summary: entry.value().summary.clone(),
                turns_since_summary: entry.value().turns_since_summary,
            },
        ),
        None => None,
    }
}

/// Relies on `dashmap::DashMap::remove`: the key's entry is gone; no
/// other key changes.
#[verifier::external_body]
fn sessions_remove(m: &mut dashmap::DashMap<String, Session>, k: &String)
    ensures
        session_map_contents(*final(m)) == session_map_contents(*old(m)).remove(k@),
{
    m.remove(k);
}

/// Relies on `dashmap::DashMap::len`: the number of entries; a real map
/// holds finitely many.
#[verifier::external_body]
fn sessions_len(m: &dashmap::DashMap<String, Session>) -> (r: usize)
    ensures
        r == session_map_contents(*m).dom().len(),
        r == session_map_contents(*m).dom().len() ==> session_map_contents(*m).dom().finite(),
{
    m.len()
}

/// Truncation of a history to its most recent `max` messages.
pub open spec fn kept_history(s: Seq<MemoryMessage>, max: usize) -> Seq<MemoryMessage> {
    if s.len() <= max {
        s
    } else {
        s.subrange(s.len() - max, s.len() as int)
    }
}

/// What recording one turn does to the store: the session under `kt`
/// gains a user message and an assistant reply (created fresh if absent),
/// its history is truncated to the last `max` messages, its turn counter
/// advances, and every other session is untouched.
/// The history of the session under `kt`, empty when absent.
pub open spec fn history_of(m: Map<Seq<char>, Session>, kt: Seq<char>) -> Seq<MemoryMessage> {
    if m.contains_key(kt) {
        m[kt].history@
    } else {
        Seq::empty()
    }
}

/// The turn counter of the session under `kt`, zero when absent.
pub open spec fn turns_of(m: Map<Seq<char>, Session>, kt: Seq<char>) -> usize {
    if m.contains_key(kt) {
        m[kt].turns_since_summary
    } else {
        0
    }
}

pub open spec fn add_turn_post(
    m0: Map<Seq<char>, Session>,
    m1: Map<Seq<char>, Session>,
    kt: Seq<char>,
    user: Seq<char>,
    assistant: Seq<char>,
    max: usize,
) -> bool {
    &&& m1.contains_key(kt)
    &&& exists|mu: MemoryMessage, ma: MemoryMessage|
        #![trigger history_of(m0, kt).push(mu).push(ma)]
        mu.role == MessageRole::User && mu.content@ == user && ma.role == MessageRole::Assistant
            && ma.content@ == assistant && m1[kt].history@ == kept_history(
            history_of(m0, kt).push(mu).push(ma),
            max,
        )
    &&& turns_of(m0, kt) < usize::MAX ==> m1[kt].turns_since_summary == turns_of(m0, kt) + 1
    &&& same_except(m0, m1, kt)
}

/// Thread-safe session store over a concurrent sharded map.
pub struct SessionManager {
    sessions: dashmap::DashMap<String, Session>,
    /// Auto-truncate when a history exceeds this length.
    max_history: usize,
}

impl SessionManager {
    /// The abstract store: each session, keyed by its key's text.
    pub closed spec fn sessions_model(&self) -> Map<Seq<char>, Session> {
        session_map_contents(self.sessions)
    }

    /// The history length limit.
    pub closed spec fn spec_max_history(&self) -> usize {
        self.max_history
    }

    pub fn new(max_history: usize) -> (r: Self)
        ensures
            r.sessions_model() == no_sessions(),
            r.spec_max_history() == max_history,
    {
        SessionManager { sessions: sessions_new(), max_history }
    }

    /// Retrieve a copy of an existing session or create, store and
    /// return a fresh one.
    pub fn get_or_create(&mut self, key: &SessionKey) -> (r: Session)
        ensures
            ({
                let kt = key_text(*key);
                let m0 = old(self).sessions_model();
                &&& final(self).spec_max_history() == old(self).spec_max_history()
                &&& if m0.contains_key(kt) {
                    final(self).sessions_model() == m0 && session_eq(r, m0[kt])
                } else {
                    &&& r.key == *key
                    &&& r.history@ == Seq::<MemoryMessage>::empty()
                    &&& r.summary is None
                    &&& r.turns_since_summary == 0
                    &&& final(self).sessions_model().contains_key(kt)
                    &&& session_eq(final(self).sessions_model()[kt], r)
                    &&& same_except(m0, final(self).sessions_model(), kt)
                }
            }),
    {
        let k = key.to_text();
        match sessions_get(&self.sessions, &k) {
            Some(s) => s,
            None => {
                let s = Session::new(key.clone());
                let copy = Session {
                    key: s.key.clone(),
                    history: s.history.clone(),
                    summary: None,
                    turns_since_summary: s.turns_since_summary,
                };
                sessions_insert(&mut self.sessions, k, copy);
                s
            },
        }
    }

    /// Record one full turn (user message and assistant reply), growing
    /// the session's history and truncating it to the configured limit.
    pub fn add_user_turn(&mut self, key: &SessionKey, user: &str, assistant: &str)
        ensures
            final(self).spec_max_history() == old(self).spec_max_history(),
            add_turn_post(
                old(self).sessions_model(),
                final(self).sessions_model(),
                key_text(*key),
                user@,
                assistant@,
                old(self).spec_max_history(),
            ),
    {
        let k = key.to_text();
        let mut entry = match sessions_get(&self.sessions, &k) {
            Some(s) => s,
            None => Session::new(key.clone()),
        };
        let ghost base = entry.history@;
        entry.history.add_user(String::from_str(user));
        entry.history.add_assistant(String::from_str(assistant));
        let ghost grown = entry.history@;
        let ghost mu = grown[grown.len() - 2];
        let ghost ma = grown[grown.len() - 1];
        if entry.turns_since_summary < usize::MAX {
            entry.turns_since_summary = entry.turns_since_summary + 1;
        }
        if entry.history.len() > self.max_history {
            entry.history.truncate_to_last(self.max_history);
        }
        proof {
            assert(grown == base.push(mu).push(ma));
            assert(entry.history@ == kept_history(grown, self.max_history));
        }
        sessions_insert(&mut self.sessions, k, entry);
        proof {
            let kt = key_text(*key);
            let m0 = old(self).sessions_model();
            let m1 = self.sessions_model();
            assert(history_of(m0, kt) == base);
            assert(m1[kt] == entry);
            assert(mu.role == MessageRole::User && mu.content@ == user@ && ma.role
                == MessageRole::Assistant && ma.content@ == assistant@ && m1[kt].history@
                == kept_history(history_of(m0, kt).push(mu).push(ma), old(self).spec_max_history()));
            assert(turns_of(m0, kt) < usize::MAX ==> m1[kt].turns_since_summary == turns_of(m0, kt)
                + 1);
            assert(same_except(m0, m1, kt));
            assert(add_turn_post(
                m0,
                m1,
                kt,
                user@,
                assistant@,
                old(self).spec_max_history(),
            ));
        }
    }

    /// Set the summary for a session; a missing session is left missing.
    pub fn set_summary(&mut self, key: &SessionKey, summary: String)
        ensures
            ({
                let kt = key_text(*key);
                let m0 = old(self).sessions_model();
                let m1 = final(self).sessions_model();
                &&& final(self).spec_max_history() == old(self).spec_max_history()
                &&& if m0.contains_key(kt) {
                    &&& m1.contains_key(kt)
                    &&& m1[kt].summary == Some(summary)
                    &&& m1[kt].history@ == m0[kt].history@
                    &&& m1[kt].turns_since_summary == m0[kt].turns_since_summary
                    &&& same_except(m0, m1, kt)
                } else {
                    m1 == m0
                }
            }),
    {
        let k = key.to_text();
        match sessions_get(&self.sessions, &k) {
            Some(mut s) => {
                s.summary = Some(summary);
                sessions_insert(&mut self.sessions, k, s);
            },
            None => {},
        }
    }

    /// The current history length for a session; zero when absent.
    pub fn history_len(&self, key: &SessionKey) -> (r: usize)
        ensures
            ({
                let kt = key_text(*key);
                let m = self.sessions_model();
                r == if m.contains_key(kt) {
                    m[kt].history@.len()
                } else {
                    0
                }
            }),
    {
        let k = key.to_text();
        match sessions_get(&self.sessions, &k) {
            Some(s) => s.history.len(),
            None => 0,
        }
    }

    /// Delete a session (for instance after agent completion).
    pub fn remove(&mut self, key: &SessionKey)
        ensures
            final(self).sessions_model() == old(self).sessions_model().remove(key_text(*key)),
            final(self).spec_max_history() == old(self).spec_max_history(),
    {
        let k = key.to_text();
        sessions_remove(&mut self.sessions, &k);
    }

    /// Total active sessions.
    pub fn len(&self) -> (r: usize)
        ensures
            self.sessions_model().dom().finite(),
            r == self.sessions_model().dom().len(),
    {
        sessions_len(&self.sessions)
    }

    pub fn is_empty(&self) -> (r: bool)
        ensures
            self.sessions_model().dom().finite(),
            r == (self.sessions_model().dom().len() == 0),
    {
        self.len() == 0
    }
}

} // verus!
