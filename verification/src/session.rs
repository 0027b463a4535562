//! Session registry: per-session metadata, lifecycle state and expiry.
//!
//! The registry itself is synchronous and single-writer; sharing it across
//! workers (a lock, a pool) belongs to the binary around the library.

use vstd::prelude::*;
use vstd::string::StringExecFns;

use crate::error::AmwajError;

verus! {

/// Configuration for session management.
#[derive(Debug, Clone)]
pub struct SessionConfig {
    /// Connection URL of an external state store, if any.
    pub redis_url: Option<String>,
    /// Session TTL in seconds.
    pub ttl_seconds: u64,
    /// Maximum sessions per instance.
    pub max_sessions: usize,
}

impl Default for SessionConfig {
    /// No external store, one-hour TTL, ten thousand sessions.
    fn default() -> (r: Self)
        ensures
            r.redis_url is None,
            r.ttl_seconds == 3600,
            r.max_sessions == 10000,
    {
        SessionConfig { redis_url: None, ttl_seconds: 3600, max_sessions: 10000 }
    }
}

/// Session lifecycle state.
#[derive(Debug, Clone, Copy, PartialEq, Eq, Structural)]
pub enum SessionState {
    /// Session is active.
    Active,
    /// Session is paused (e.g. user muted).
    Paused,
    /// Session is being terminated.
    Terminating,
    /// Session has ended.
    Ended,
}

/// Relies on chrono::Utc::now and DateTime::timestamp_millis: the wall
/// clock as milliseconds since the Unix epoch; nothing is assumed about
/// the value. Environmental caveat: chrono panics if the system clock
/// reads before the Unix epoch.
#[verifier::external_body]
fn now_unix_millis() -> (r: i64) {
    chrono::Utc::now().timestamp_millis()
}

/// Relies on uuid::Uuid::new_v4 and its hyphenated Display form: a fresh
/// random identifier of 36 ASCII characters. Environmental caveat: uuid
/// panics if the operating system's randomness source fails.
#[verifier::external_body]
fn fresh_uuid() -> (r: String)
    ensures
        r@.len() == 36,
{
    uuid::Uuid::new_v4().to_string()
}

/// The view of an optional string.
pub open spec fn opt_str_view(o: Option<String>) -> Option<Seq<char>> {
    match o {
        Some(s) => Some(s@),
        None => None,
    }
}

/// A record is expired at time `now_ms` when strictly more than
/// `ttl_seconds` whole seconds have passed since its last activity.
pub open spec fn spec_expired_at(rec: SessionData, ttl_seconds: u64, now_ms: i64) -> bool {
    let age = now_ms as int - rec.last_activity as int;
    age >= 0 && age / 1000 > ttl_seconds as int
}

/// The entries of `pre` that are not expired at `now_ms`, in order.
pub open spec fn spec_survivors(
    pre: Seq<(String, SessionData)>,
    ttl_seconds: u64,
    now_ms: i64,
) -> Seq<(String, SessionData)> {
    pre.filter(|e: (String, SessionData)| !spec_expired_at(e.1, ttl_seconds, now_ms))
}

/// One clock reading at `now_ms` governed a reap of `pre` into `post`:
/// the entries not expired at `now_ms` survive, in their old order.
#[verifier::opaque]
pub open spec fn reaped_at(
    pre: Seq<(String, SessionData)>,
    post: Seq<(String, SessionData)>,
    ttl_seconds: u64,
    now_ms: i64,
) -> bool {
    let keep = spec_survivors(pre, ttl_seconds, now_ms);
    &&& post.len() == keep.len()
    &&& (forall|i: int| 0 <= i < keep.len() ==> entry_like(keep[i], #[trigger] post[i]))
}

/// Session data stored for each connection. Timestamps are milliseconds
/// since the Unix epoch.
#[derive(Debug)]
pub struct SessionData {
    /// Unique session identifier.
    pub session_id: String,
    /// User identifier.
    pub user_id: Option<String>,
    /// Creation timestamp.
    pub created_at: i64,
    /// Last activity timestamp.
    pub last_activity: i64,
    /// Session lifecycle state.
    pub state: SessionState,
    /// Custom metadata, keyed uniquely.
    pub metadata: Vec<(String, String)>,
}

/// Both records agree on everything but the last-activity timestamp.
pub open spec fn same_except_activity(a: SessionData, b: SessionData) -> bool {
    &&& b.session_id == a.session_id
    &&& b.user_id == a.user_id
    &&& b.created_at == a.created_at
    &&& b.state == a.state
    &&& b.metadata@ == a.metadata@
}

/// Both records agree on every field (metadata compared element-wise).
pub open spec fn record_eq(a: SessionData, b: SessionData) -> bool {
    &&& b.session_id == a.session_id
    &&& b.user_id == a.user_id
    &&& b.created_at == a.created_at
    &&& b.last_activity == a.last_activity
    &&& b.state == a.state
    &&& b.metadata@ == a.metadata@
}

/// Both entries carry the same key and record (metadata element-wise).
pub open spec fn entry_like(a: (String, SessionData), b: (String, SessionData)) -> bool {
    &&& b.0 == a.0
    &&& record_eq(a.1, b.1)
}

/// `e` carries the key and record of some entry of `pre`.
pub open spec fn from_registry(pre: Seq<(String, SessionData)>, e: (String, SessionData)) -> bool {
    exists|j: int| 0 <= j < pre.len() && entry_like(#[trigger] pre[j], e)
}

/// `e` is a brand-new registration: keyed by `idv`, carrying `idv` as its
/// record id, the given user, the Active state, both timestamps at
/// `now_ms`, and no metadata.
pub open spec fn fresh_record(
    e: (String, SessionData),
    idv: Seq<char>,
    user_id: Option<String>,
    now_ms: i64,
) -> bool {
    &&& e.0@ == idv
    &&& e.1.session_id@ == idv
    &&& opt_str_view(e.1.user_id) == opt_str_view(user_id)
    &&& e.1.state == SessionState::Active
    &&& e.1.created_at == now_ms
    &&& e.1.last_activity == now_ms
    &&& e.1.metadata@ == Seq::<(String, String)>::empty()
}

/// The reap `create_session` runs before inserting: when `pre` is at
/// capacity, exactly the entries expired at `now_ms` leave (order kept);
/// under capacity nothing is touched.
pub open spec fn reap_if_full(
    pre: Seq<(String, SessionData)>,
    mid: Seq<(String, SessionData)>,
    ttl_seconds: u64,
    max_sessions: int,
    now_ms: i64,
) -> bool {
    if pre.len() >= max_sessions {
        reaped_at(pre, mid, ttl_seconds, now_ms)
    } else {
        mid == pre
    }
}

/// `post` is `mid` with one fresh record for `idv` taken in: appended when
/// no entry carries the key, replacing the one entry that does otherwise;
/// every other entry is exactly unchanged.
#[verifier::opaque]
pub open spec fn upserted_fresh(
    mid: Seq<(String, SessionData)>,
    post: Seq<(String, SessionData)>,
    idv: Seq<char>,
    user_id: Option<String>,
    now_ms: i64,
) -> bool {
    ||| ((forall|j: int| 0 <= j < mid.len() ==> (#[trigger] mid[j]).0@ != idv) && post.len()
        == mid.len() + 1 && (forall|j: int| 0 <= j < mid.len() ==> #[trigger] post[j] == mid[j])
        && fresh_record(post[mid.len() as int], idv, user_id, now_ms))
    ||| (exists|j: int|
        {
            &&& 0 <= j < mid.len()
            &&& (#[trigger] mid[j]).0@ == idv
            &&& post.len() == mid.len()
            &&& (forall|k: int| 0 <= k < mid.len() && k != j ==> #[trigger] post[k] == mid[k])
            &&& fresh_record(post[j], idv, user_id, now_ms)
        })
}

/// Everything one successful `create_session` does, under one clock
/// reading `now_ms`: the registry is reaped only if it was at capacity,
/// the reap leaves it under capacity, and the fresh record stamped at
/// `now_ms` joins it with all other entries exactly unchanged.
#[verifier::opaque]
pub open spec fn created_transition(
    pre: Seq<(String, SessionData)>,
    post: Seq<(String, SessionData)>,
    ttl_seconds: u64,
    max_sessions: int,
    idv: Seq<char>,
    user_id: Option<String>,
    now_ms: i64,
) -> bool {
    exists|mid: Seq<(String, SessionData)>|
        {
            &&& #[trigger] reap_if_full(pre, mid, ttl_seconds, max_sessions, now_ms)
            &&& mid.len() < max_sessions
            &&& upserted_fresh(mid, post, idv, user_id, now_ms)
        }
}

/// A successful registration from `pre` to `post` under some clock
/// reading: `created_transition` at an existentially chosen time.
pub open spec fn session_created(
    pre: Seq<(String, SessionData)>,
    post: Seq<(String, SessionData)>,
    ttl_seconds: u64,
    max_sessions: int,
    idv: Seq<char>,
    user_id: Option<String>,
) -> bool {
    exists|now_ms: i64| created_transition(pre, post, ttl_seconds, max_sessions, idv, user_id, now_ms)
}

/// `b` is `a` with the metadata entry for `key` set to `value`: replaced
/// in place at the first entry carrying the key, appended when none does;
/// every other field of the record is unchanged.
pub open spec fn spec_meta_set(a: SessionData, b: SessionData, key: String, value: String) -> bool {
    &&& b.session_id == a.session_id
    &&& b.user_id == a.user_id
    &&& b.created_at == a.created_at
    &&& b.last_activity == a.last_activity
    &&& b.state == a.state
    &&& ({
        ||| (exists|i: int|
            {
                &&& 0 <= i < a.metadata@.len()
                &&& (#[trigger] a.metadata@[i]).0@ == key@
                &&& (forall|j: int| 0 <= j < i ==> (#[trigger] a.metadata@[j]).0@ != key@)
                &&& b.metadata@ == a.metadata@.update(i, (key, value))
            })
        ||| ((forall|j: int| 0 <= j < a.metadata@.len() ==> (#[trigger] a.metadata@[j]).0@ != key@)
            && b.metadata@ == a.metadata@.push((key, value)))
    })
}

impl Clone for SessionData {
    /// A field-for-field copy.
    fn clone(&self) -> (r: Self)
        ensures
            record_eq(*self, r),
    {
        let user_id = match &self.user_id {
            Some(u) => Some(u.clone()),
            None => None,
        };
        let mut metadata: Vec<(String, String)> = Vec::new();
        let mut i: usize = 0;
        while i < self.metadata.len()
            invariant
                i <= self.metadata@.len(),
                metadata@ == self.metadata@.subrange(0, i as int),
            decreases self.metadata.len() - i,
        {
            let pair = (self.metadata[i].0.clone(), self.metadata[i].1.clone());
            proof {
                assert(pair == self.metadata@[i as int]);
            }
            metadata.push(pair);
            proof {
                assert(metadata@ =~= self.metadata@.subrange(0, i + 1));
            }
            i += 1;
        }
        proof {
            assert(metadata@ =~= self.metadata@);
        }
        SessionData {
            session_id: self.session_id.clone(),
            user_id,
            created_at: self.created_at,
            last_activity: self.last_activity,
            state: self.state,
            metadata,
        }
    }
}

impl SessionData {
    /// A fresh active session created at time `now_ms`, with both
    /// timestamps pinned to it and no metadata.
    pub fn new_at(session_id: String, now_ms: i64) -> (r: Self)
        ensures
            r.session_id@ == session_id@,
            r.user_id is None,
            r.created_at == now_ms,
            r.last_activity == now_ms,
            r.state == SessionState::Active,
            r.metadata@ == Seq::<(String, String)>::empty(),
    {
        SessionData {
            session_id,
            user_id: None,
            created_at: now_ms,
            last_activity: now_ms,
            state: SessionState::Active,
            metadata: Vec::new(),
        }
    }

    /// A fresh active session created now: `new_at` of one clock reading.
    pub fn new(session_id: String) -> (r: Self)
        ensures
            r.session_id@ == session_id@,
            r.user_id is None,
            r.created_at == r.last_activity,
            r.state == SessionState::Active,
            r.metadata@ == Seq::<(String, String)>::empty(),
    {
        let now = now_unix_millis();
        Self::new_at(session_id, now)
    }

    /// Set the last-activity timestamp to `now_ms`, touching nothing else.
    pub fn touch_at(&mut self, now_ms: i64)
        ensures
            final(self).last_activity == now_ms,
            same_except_activity(*old(self), *final(self)),
    {
        self.last_activity = now_ms;
    }

    /// Refresh the last-activity timestamp from the clock: `touch_at` of
    /// one clock reading.
    pub fn touch(&mut self)
        ensures
            same_except_activity(*old(self), *final(self)),
    {
        let now = now_unix_millis();
        self.touch_at(now);
    }

    /// Whether the session is expired at time `now_ms`: strictly more than
    /// `ttl_seconds` of whole seconds have passed since the last activity.
    pub fn is_expired_at(&self, ttl_seconds: u64, now_ms: i64) -> (r: bool)
        ensures
            r == spec_expired_at(*self, ttl_seconds, now_ms),
    {
        let age_ms: i128 = (now_ms as i128) - (self.last_activity as i128);
        if age_ms < 0 {
            false
        } else {
            (age_ms / 1000) > (ttl_seconds as i128)
        }
    }

    /// Whether the session is expired against the clock now.
    pub fn is_expired(&self, ttl_seconds: u64) -> bool {
        let now = now_unix_millis();
        self.is_expired_at(ttl_seconds, now)
    }

    /// Set a metadata value, replacing the first entry with an equal key
    /// or appending a new one.
    pub fn set_metadata(&mut self, key: String, value: String)
        ensures
            spec_meta_set(*old(self), *final(self), key, value),
    {
        let mut i: usize = 0;
        while i < self.metadata.len()
            invariant
                *self == *old(self),
                i <= self.metadata@.len(),
                forall|j: int| 0 <= j < i ==> (#[trigger] self.metadata@[j]).0@ != key@,
            decreases self.metadata.len() - i,
        {
            if self.metadata[i].0 == key {
                let ghost pre = self.metadata@;
                self.metadata.set(i, (key, value));
                proof {
                    assert(final(self).metadata@ == pre.update(i as int, (key, value)));
                }
                return ;
            }
            i += 1;
        }
        self.metadata.push((key, value));
    }

    /// Look up a metadata value by its key (first match).
    pub fn get_metadata(&self, key: &str) -> (r: Option<&String>)
        ensures
            r matches Some(v) ==> exists|i: int|
                {
                    &&& 0 <= i < self.metadata@.len()
                    &&& (#[trigger] self.metadata@[i]).0@ == key@
                    &&& (forall|j: int| 0 <= j < i ==> (#[trigger] self.metadata@[j]).0@ != key@)
                    &&& v@ == self.metadata@[i].1@
                },
            r is None ==> forall|j: int|
                0 <= j < self.metadata@.len() ==> (#[trigger] self.metadata@[j]).0@ != key@,
    {
        let key_owned = key_to_string(key);
        let mut i: usize = 0;
        while i < self.metadata.len()
            invariant
                i <= self.metadata@.len(),
                key_owned@ == key@,
                forall|j: int| 0 <= j < i ==> (#[trigger] self.metadata@[j]).0@ != key@,
            decreases self.metadata.len() - i,
        {
            if self.metadata[i].0 == key_owned {
                return Some(&self.metadata[i].1);
            }
            i += 1;
        }
        None
    }
}

/// An owned copy of a borrowed string.
fn key_to_string(s: &str) -> (r: String)
    ensures
        r@ == s@,
{
    String::from_str(s)
}

/// Session registry for one instance.
pub struct DistributedSessionManager {
    config: SessionConfig,
    sessions: Vec<(String, SessionData)>,
    instance_id: String,
}

impl DistributedSessionManager {
    /// The registered sessions, in insertion order.
    pub closed spec fn spec_sessions(&self) -> Seq<(String, SessionData)> {
        self.sessions@
    }

    pub closed spec fn spec_config(&self) -> SessionConfig {
        self.config
    }

    /// Unique keys, each entry keyed by its record's own id, within
    /// capacity.
    pub open spec fn wf(&self) -> bool {
        &&& (forall|i: int, j: int|
            0 <= i < j < self.spec_sessions().len() ==> (#[trigger] self.spec_sessions()[i]).0@ != (
            #[trigger] self.spec_sessions()[j]).0@)
        &&& (forall|i: int|
            0 <= i < self.spec_sessions().len() ==> (#[trigger] self.spec_sessions()[i]).0@
                == self.spec_sessions()[i].1.session_id@)
        &&& self.spec_sessions().len() <= self.spec_config().max_sessions
    }

    /// An empty registry.
    pub fn new(config: SessionConfig) -> (r: Self)
        ensures
            r.wf(),
            r.spec_sessions() == Seq::<(String, SessionData)>::empty(),
            r.spec_config() == config,
    {
        let r = Self { config, sessions: Vec::new(), instance_id: fresh_uuid() };
        proof {
            assert(r.spec_sessions() =~= Seq::<(String, SessionData)>::empty());
        }
        r
    }

    /// An empty registry bound to an external store URL.
    pub fn with_redis(redis_url: &str, ttl_seconds: u64) -> (r: Result<Self, AmwajError>)
        ensures
            r is Ok,
            r matches Ok(m) ==> {
                &&& m.wf()
                &&& m.spec_sessions() == Seq::<(String, SessionData)>::empty()
                &&& m.spec_config().redis_url matches Some(u) && u@ == redis_url@
                &&& m.spec_config().ttl_seconds == ttl_seconds
                &&& m.spec_config().max_sessions == 10000
            },
    {
        let config = SessionConfig {
            redis_url: Some(key_to_string(redis_url)),
            ttl_seconds,
            max_sessions: 10000,
        };
        Ok(Self::new(config))
    }

    fn position_of(&self, key: &String) -> (r: Option<usize>)
        ensures
            r matches Some(i) ==> {
                &&& 0 <= i < self.spec_sessions().len()
                &&& self.spec_sessions()[i as int].0@ == key@
            },
            r is None ==> forall|j: int|
                0 <= j < self.spec_sessions().len() ==> (#[trigger] self.spec_sessions()[j]).0@
                    != key@,
    {
        let mut i: usize = 0;
        while i < self.sessions.len()
            invariant
                i <= self.spec_sessions().len(),
                forall|j: int| 0 <= j < i ==> (#[trigger] self.spec_sessions()[j]).0@ != key@,
            decreases self.sessions.len() - i,
        {
            if self.sessions[i].0 == *key {
                return Some(i);
            }
            i += 1;
        }
        None
    }

    /// Register a new active session under a fresh identifier; reaps
    /// expired sessions first if at capacity, and fails with
    /// `SessionCapacityReached` only if still full after that. One clock
    /// reading stamps the new record and governs the reap, and only
    /// entries expired at it ever leave.
    #[verifier::rlimit(100)]
    #[verifier::spinoff_prover]
    pub fn create_session(&mut self, user_id: Option<String>) -> (r: Result<String, AmwajError>)
        requires
            old(self).wf(),
        ensures
            final(self).wf(),
            final(self).spec_config() == old(self).spec_config(),
            r matches Ok(id) ==> id@.len() == 36,
            r matches Ok(id) ==> session_created(
                old(self).spec_sessions(),
                final(self).spec_sessions(),
                old(self).spec_config().ttl_seconds,
                old(self).spec_config().max_sessions as int,
                id@,
                user_id,
            ),
            r matches Ok(id) ==> exists|i: int|
                {
                    &&& 0 <= i < final(self).spec_sessions().len()
                    &&& (#[trigger] final(self).spec_sessions()[i]).0@ == id@
                    &&& final(self).spec_sessions()[i].1.session_id@ == id@
                    &&& opt_str_view(final(self).spec_sessions()[i].1.user_id) == opt_str_view(
                        user_id,
                    )
                    &&& final(self).spec_sessions()[i].1.state == SessionState::Active
                    &&& final(self).spec_sessions()[i].1.created_at == final(self).spec_sessions()[i].1.last_activity
                    &&& final(self).spec_sessions()[i].1.metadata@ == Seq::<(
                        String,
                        String,
                    )>::empty()
                },
            r is Ok ==> final(self).spec_sessions().len() <= old(self).spec_sessions().len() + 1,
            r matches Err(e) ==> {
                &&& e == AmwajError::SessionCapacityReached
                &&& old(self).spec_sessions().len() >= old(self).spec_config().max_sessions
                &&& final(self).spec_sessions().len() >= final(self).spec_config().max_sessions
                &&& exists|now_ms: i64|
                    reaped_at(
                        old(self).spec_sessions(),
                        final(self).spec_sessions(),
                        old(self).spec_config().ttl_seconds,
                        now_ms,
                    )
            },
            // Every surviving entry was either already registered or is the new one.
            forall|i: int|
                0 <= i < final(self).spec_sessions().len() ==> (from_registry(
                    old(self).spec_sessions(),
                    #[trigger] final(self).spec_sessions()[i],
                ) || (r matches Ok(id) && final(self).spec_sessions()[i].0@ == id@)),
    {
        let session_id = fresh_uuid();
        let ghost sid_view = session_id@;
        let now = now_unix_millis();
        let mut session = SessionData::new_at(session_id.clone(), now);
        let ghost guid = user_id;
        let ghost uid_view = opt_str_view(user_id);
        session.user_id = user_id;

        let ghost pre = self.sessions@;
        if self.sessions.len() >= self.config.max_sessions {
            self.cleanup_expired_at(now);
            if self.sessions.len() >= self.config.max_sessions {
                return Err(AmwajError::SessionCapacityReached);
            }
        }
        let ghost mid = self.sessions@;
        proof {
            assert(reap_if_full(
                pre,
                mid,
                self.spec_config().ttl_seconds,
                self.spec_config().max_sessions as int,
                now,
            ));
        }

        match self.position_of(&session_id) {
            Some(i) => {
                self.sessions.set(i, (session_id.clone(), session));
                proof {
                    let w = i as int;
                    assert(self.spec_sessions()[w].0@ == sid_view);
                    assert(self.spec_sessions()[w].1.session_id@ == sid_view);
                    assert(opt_str_view(self.spec_sessions()[w].1.user_id) == uid_view);
                    assert(self.spec_sessions()[w].1.state == SessionState::Active);
                    assert(self.spec_sessions()[w].1.created_at == self.spec_sessions()[w].1.last_activity);
                    assert(self.spec_sessions()[w].1.metadata@ =~= Seq::<(String, String)>::empty());
                    assert(fresh_record(self.spec_sessions()[w], sid_view, guid, now));
                    reveal(upserted_fresh);
                    reveal(created_transition);
                    assert(upserted_fresh(mid, self.spec_sessions(), sid_view, guid, now));
                    assert(created_transition(
                        old(self).spec_sessions(),
                        self.spec_sessions(),
                        old(self).spec_config().ttl_seconds,
                        old(self).spec_config().max_sessions as int,
                        sid_view,
                        guid,
                        now,
                    ));
                    assert(session_created(
                        old(self).spec_sessions(),
                        self.spec_sessions(),
                        old(self).spec_config().ttl_seconds,
                        old(self).spec_config().max_sessions as int,
                        sid_view,
                        guid,
                    ));
                }
            },
            None => {
                self.sessions.push((session_id.clone(), session));
                proof {
                    let w = self.spec_sessions().len() - 1;
                    assert(self.spec_sessions()[w].0@ == sid_view);
                    assert(self.spec_sessions()[w].1.session_id@ == sid_view);
                    assert(opt_str_view(self.spec_sessions()[w].1.user_id) == uid_view);
                    assert(self.spec_sessions()[w].1.state == SessionState::Active);
                    assert(self.spec_sessions()[w].1.created_at == self.spec_sessions()[w].1.last_activity);
                    assert(self.spec_sessions()[w].1.metadata@ =~= Seq::<(String, String)>::empty());
                    assert(fresh_record(self.spec_sessions()[w], sid_view, guid, now));
                    reveal(upserted_fresh);
                    reveal(created_transition);
                    assert(upserted_fresh(mid, self.spec_sessions(), sid_view, guid, now));
                    assert(created_transition(
                        old(self).spec_sessions(),
                        self.spec_sessions(),
                        old(self).spec_config().ttl_seconds,
                        old(self).spec_config().max_sessions as int,
                        sid_view,
                        guid,
                        now,
                    ));
                    assert(session_created(
                        old(self).spec_sessions(),
                        self.spec_sessions(),
                        old(self).spec_config().ttl_seconds,
                        old(self).spec_config().max_sessions as int,
                        sid_view,
                        guid,
                    ));
                }
            },
        }
        Ok(session_id)
    }

    /// The stored record for a session id, if registered.
    pub fn get_session(&self, session_id: &str) -> (r: Option<SessionData>)
        ensures
            r is Some <==> exists|i: int|
                0 <= i < self.spec_sessions().len() && (#[trigger] self.spec_sessions()[i]).0@
                    == session_id@,
            r matches Some(d) ==> exists|i: int|
                {
                    &&& 0 <= i < self.spec_sessions().len()
                    &&& (#[trigger] self.spec_sessions()[i]).0@ == session_id@
                    &&& record_eq(self.spec_sessions()[i].1, d)
                },
    {
        let key = key_to_string(session_id);
        match self.position_of(&key) {
            Some(i) => Some(self.sessions[i].1.clone()),
            None => None,
        }
    }

    /// Set a session's activity timestamp to `now_ms`: the matching
    /// entry's `last_activity` becomes `now_ms` (nothing else of it
    /// changes) and every other entry is exactly unchanged.
    pub fn touch_session_at(&mut self, session_id: &str, now_ms: i64) -> (r: Result<
        (),
        AmwajError,
    >)
        requires
            old(self).wf(),
        ensures
            final(self).wf(),
            final(self).spec_config() == old(self).spec_config(),
            r is Ok <==> exists|i: int|
                0 <= i < old(self).spec_sessions().len() && (#[trigger] old(
                    self,
                ).spec_sessions()[i]).0@ == session_id@,
            r matches Err(e) ==> e == AmwajError::SessionNotFound && *final(self) == *old(self),
            final(self).spec_sessions().len() == old(self).spec_sessions().len(),
            forall|i: int|
                0 <= i < old(self).spec_sessions().len() ==> {
                    &&& (#[trigger] final(self).spec_sessions()[i]).0 == old(
                        self,
                    ).spec_sessions()[i].0
                    &&& (old(self).spec_sessions()[i].0@ == session_id@ && r is Ok ==> {
                        &&& same_except_activity(
                            old(self).spec_sessions()[i].1,
                            final(self).spec_sessions()[i].1,
                        )
                        &&& final(self).spec_sessions()[i].1.last_activity == now_ms
                    })
                    &&& (old(self).spec_sessions()[i].0@ != session_id@ ==> final(self).spec_sessions()[i] == old(self).spec_sessions()[i])
                },
    {
        let key = key_to_string(session_id);
        match self.position_of(&key) {
            Some(i) => {
                let k = self.sessions[i].0.clone();
                let mut rec = self.sessions[i].1.clone();
                rec.touch_at(now_ms);
                self.sessions.set(i, (k, rec));
                Ok(())
            },
            None => Err(AmwajError::SessionNotFound),
        }
    }

    /// Refresh a session's activity timestamp from the clock:
    /// `touch_session_at` of one clock reading. Every other entry is
    /// exactly unchanged.
    pub fn touch_session(&mut self, session_id: &str) -> (r: Result<(), AmwajError>)
        requires
            old(self).wf(),
        ensures
            final(self).wf(),
            final(self).spec_config() == old(self).spec_config(),
            r is Ok <==> exists|i: int|
                0 <= i < old(self).spec_sessions().len() && (#[trigger] old(
                    self,
                ).spec_sessions()[i]).0@ == session_id@,
            r matches Err(e) ==> e == AmwajError::SessionNotFound && *final(self) == *old(self),
            final(self).spec_sessions().len() == old(self).spec_sessions().len(),
            forall|i: int|
                0 <= i < old(self).spec_sessions().len() ==> {
                    &&& (#[trigger] final(self).spec_sessions()[i]).0 == old(
                        self,
                    ).spec_sessions()[i].0
                    &&& same_except_activity(
                        old(self).spec_sessions()[i].1,
                        final(self).spec_sessions()[i].1,
                    )
                    &&& (old(self).spec_sessions()[i].0@ != session_id@ ==> final(self).spec_sessions()[i] == old(self).spec_sessions()[i])
                },
    {
        let now = now_unix_millis();
        self.touch_session_at(session_id, now)
    }

    /// Set a session's lifecycle state, stamping its activity at `now_ms`;
    /// every other field of the record and every other entry is exactly
    /// unchanged.
    pub fn update_state_at(&mut self, session_id: &str, state: SessionState, now_ms: i64) -> (r:
        Result<(), AmwajError>)
        requires
            old(self).wf(),
        ensures
            final(self).wf(),
            final(self).spec_config() == old(self).spec_config(),
            r is Ok <==> exists|i: int|
                0 <= i < old(self).spec_sessions().len() && (#[trigger] old(
                    self,
                ).spec_sessions()[i]).0@ == session_id@,
            r matches Err(e) ==> e == AmwajError::SessionNotFound && *final(self) == *old(self),
            final(self).spec_sessions().len() == old(self).spec_sessions().len(),
            forall|i: int|
                0 <= i < old(self).spec_sessions().len() ==> {
                    &&& (#[trigger] final(self).spec_sessions()[i]).0 == old(
                        self,
                    ).spec_sessions()[i].0
                    &&& (old(self).spec_sessions()[i].0@ == session_id@ && r is Ok ==> {
                        let a = old(self).spec_sessions()[i].1;
                        let b = final(self).spec_sessions()[i].1;
                        &&& b.state == state
                        &&& b.last_activity == now_ms
                        &&& b.session_id == a.session_id
                        &&& b.user_id == a.user_id
                        &&& b.created_at == a.created_at
                        &&& b.metadata@ == a.metadata@
                    })
                    &&& (old(self).spec_sessions()[i].0@ != session_id@ ==> final(self).spec_sessions()[i] == old(self).spec_sessions()[i])
                },
    {
        let key = key_to_string(session_id);
        match self.position_of(&key) {
            Some(i) => {
                let k = self.sessions[i].0.clone();
                let mut rec = self.sessions[i].1.clone();
                rec.state = state;
                rec.touch_at(now_ms);
                self.sessions.set(i, (k, rec));
                Ok(())
            },
            None => Err(AmwajError::SessionNotFound),
        }
    }

    /// Set a session's lifecycle state and refresh its activity:
    /// `update_state_at` of one clock reading.
    pub fn update_state(&mut self, session_id: &str, state: SessionState) -> (r: Result<
        (),
        AmwajError,
    >)
        requires
            old(self).wf(),
        ensures
            final(self).wf(),
            final(self).spec_config() == old(self).spec_config(),
            r is Ok <==> exists|i: int|
                0 <= i < old(self).spec_sessions().len() && (#[trigger] old(
                    self,
                ).spec_sessions()[i]).0@ == session_id@,
            r matches Err(e) ==> e == AmwajError::SessionNotFound && *final(self) == *old(self),
            final(self).spec_sessions().len() == old(self).spec_sessions().len(),
            forall|i: int|
                0 <= i < old(self).spec_sessions().len() ==> {
                    &&& (#[trigger] final(self).spec_sessions()[i]).0 == old(
                        self,
                    ).spec_sessions()[i].0
                    &&& (old(self).spec_sessions()[i].0@ == session_id@ && r is Ok ==> {
                        let a = old(self).spec_sessions()[i].1;
                        let b = final(self).spec_sessions()[i].1;
                        &&& b.state == state
                        &&& b.session_id == a.session_id
                        &&& b.user_id == a.user_id
                        &&& b.created_at == a.created_at
                        &&& b.metadata@ == a.metadata@
                    })
                    &&& (old(self).spec_sessions()[i].0@ != session_id@ ==> final(self).spec_sessions()[i] == old(self).spec_sessions()[i])
                },
    {
        let now = now_unix_millis();
        self.update_state_at(session_id, state, now)
    }

    /// Set one metadata entry on a session: the matching record gets the
    /// entry for `key` replaced in place or appended, exactly as
    /// `SessionData::set_metadata` describes; every other entry is exactly
    /// unchanged.
    pub fn set_metadata(&mut self, session_id: &str, key: String, value: String) -> (r: Result<
        (),
        AmwajError,
    >)
        requires
            old(self).wf(),
        ensures
            final(self).wf(),
            final(self).spec_config() == old(self).spec_config(),
            r is Ok <==> exists|i: int|
                0 <= i < old(self).spec_sessions().len() && (#[trigger] old(
                    self,
                ).spec_sessions()[i]).0@ == session_id@,
            r matches Err(e) ==> e == AmwajError::SessionNotFound && *final(self) == *old(self),
            final(self).spec_sessions().len() == old(self).spec_sessions().len(),
            forall|i: int|
                0 <= i < old(self).spec_sessions().len() ==> {
                    &&& (#[trigger] final(self).spec_sessions()[i]).0 == old(
                        self,
                    ).spec_sessions()[i].0
                    &&& (old(self).spec_sessions()[i].0@ == session_id@ && r is Ok
                        ==> spec_meta_set(
                        old(self).spec_sessions()[i].1,
                        final(self).spec_sessions()[i].1,
                        key,
                        value,
                    ))
                    &&& (old(self).spec_sessions()[i].0@ != session_id@ ==> final(self).spec_sessions()[i] == old(self).spec_sessions()[i])
                },
    {
        let owned = key_to_string(session_id);
        match self.position_of(&owned) {
            Some(i) => {
                let k = self.sessions[i].0.clone();
                let mut rec = self.sessions[i].1.clone();
                let ghost cloned = rec;
                let ghost gkey = key;
                let ghost gval = value;
                rec.set_metadata(key, value);
                proof {
                    assert(record_eq(old(self).spec_sessions()[i as int].1, cloned));
                    assert(spec_meta_set(old(self).spec_sessions()[i as int].1, rec, gkey, gval));
                }
                self.sessions.set(i, (k, rec));
                Ok(())
            },
            None => Err(AmwajError::SessionNotFound),
        }
    }

    /// Remove a session from the registry; succeeds whether or not it was
    /// present. Exactly the entry carrying the key leaves; every other
    /// entry survives in place.
    pub fn end_session(&mut self, session_id: &str) -> (r: Result<(), AmwajError>)
        requires
            old(self).wf(),
        ensures
            final(self).wf(),
            final(self).spec_config() == old(self).spec_config(),
            r is Ok,
            // The registry is the old one with the matching entry removed,
            // or untouched when no entry matches.
            ({
                ||| (exists|j: int|
                    {
                        &&& 0 <= j < old(self).spec_sessions().len()
                        &&& (#[trigger] old(self).spec_sessions()[j]).0@ == session_id@
                        &&& final(self).spec_sessions() == old(self).spec_sessions().remove(j)
                    })
                ||| ((forall|j: int|
                    0 <= j < old(self).spec_sessions().len() ==> (#[trigger] old(
                        self,
                    ).spec_sessions()[j]).0@ != session_id@) && *final(self) == *old(self))
            }),
            forall|i: int|
                0 <= i < final(self).spec_sessions().len() ==> (#[trigger] final(self).spec_sessions()[i]).0@ != session_id@,
            // Entries with other keys survive.
            forall|j: int|
                0 <= j < old(self).spec_sessions().len() && (#[trigger] old(
                    self,
                ).spec_sessions()[j]).0@ != session_id@ ==> exists|i: int|
                    0 <= i < final(self).spec_sessions().len() && final(self).spec_sessions()[i]
                        == old(self).spec_sessions()[j],
    {
        let key = key_to_string(session_id);
        match self.position_of(&key) {
            Some(i) => {
                let ghost pre = self.sessions@;
                self.sessions.remove(i);
                proof {
                    assert forall|j: int| #![trigger pre[j]] 0 <= j < pre.len() && j != i implies exists|i2: int|
                        0 <= i2 < self.sessions@.len() && (#[trigger] self.sessions@[i2]) == pre[j] by {
                        if j < i {
                            assert(self.sessions@[j] == pre[j]);
                        } else {
                            assert(self.sessions@[j - 1] == pre[j]);
                        }
                    }
                }
                Ok(())
            },
            None => Ok(()),
        }
    }

    /// Number of sessions in the Active state.
    pub fn active_session_count(&self) -> (r: usize)
        ensures
            r == spec_count_active(self.spec_sessions()),
    {
        proof {
            lemma_count_active_bound(self.spec_sessions());
        }
        let mut count: usize = 0;
        let mut i: usize = 0;
        while i < self.sessions.len()
            invariant
                i <= self.spec_sessions().len(),
                count == spec_count_active(self.spec_sessions().subrange(0, i as int)),
                count <= i,
            decreases self.sessions.len() - i,
        {
            proof {
                assert(self.spec_sessions().subrange(0, (i + 1) as int).drop_last()
                    =~= self.spec_sessions().subrange(0, i as int));
                lemma_count_active_bound(self.spec_sessions().subrange(0, i as int));
            }
            let is_active = match self.sessions[i].1.state {
                SessionState::Active => true,
                _ => false,
            };
            if is_active {
                count += 1;
            }
            i += 1;
        }
        proof {
            assert(self.spec_sessions().subrange(0, self.spec_sessions().len() as int)
                =~= self.spec_sessions());
        }
        count
    }

    /// Total number of registered sessions.
    pub fn total_session_count(&self) -> (r: usize)
        ensures
            r == self.spec_sessions().len(),
    {
        self.sessions.len()
    }

    /// Remove all expired sessions; returns how many were removed. One
    /// clock reading governs which entries count as expired; the
    /// survivors keep their order.
    pub fn cleanup_expired(&mut self) -> (r: usize)
        requires
            old(self).wf(),
        ensures
            final(self).wf(),
            final(self).spec_config() == old(self).spec_config(),
            r == old(self).spec_sessions().len() - final(self).spec_sessions().len(),
            exists|now_ms: i64|
                reaped_at(
                    old(self).spec_sessions(),
                    final(self).spec_sessions(),
                    old(self).spec_config().ttl_seconds,
                    now_ms,
                ),
            forall|i: int|
                0 <= i < final(self).spec_sessions().len() ==> from_registry(
                    old(self).spec_sessions(),
                    #[trigger] final(self).spec_sessions()[i],
                ),
    {
        let now = now_unix_millis();
        self.cleanup_expired_at(now)
    }

    /// All registered session ids.
    pub fn list_sessions(&self) -> (r: Vec<String>)
        ensures
            r@.len() == self.spec_sessions().len(),
            forall|i: int|
                0 <= i < r@.len() ==> (#[trigger] r@[i])@ == self.spec_sessions()[i].0@,
    {
        let mut out: Vec<String> = Vec::new();
        let mut i: usize = 0;
        while i < self.sessions.len()
            invariant
                i <= self.spec_sessions().len(),
                out@.len() == i,
                forall|j: int| 0 <= j < i ==> (#[trigger] out@[j])@ == self.spec_sessions()[j].0@,
            decreases self.sessions.len() - i,
        {
            out.push(self.sessions[i].0.clone());
            i += 1;
        }
        out
    }

    fn cleanup_expired_at(&mut self, now_ms: i64) -> (r: usize)
        requires
            old(self).wf(),
        ensures
            final(self).wf(),
            final(self).spec_config() == old(self).spec_config(),
            r == old(self).spec_sessions().len() - final(self).spec_sessions().len(),
            reaped_at(
                old(self).spec_sessions(),
                final(self).spec_sessions(),
                old(self).spec_config().ttl_seconds,
                now_ms,
            ),
            forall|i: int|
                0 <= i < final(self).spec_sessions().len() ==> from_registry(
                    old(self).spec_sessions(),
                    #[trigger] final(self).spec_sessions()[i],
                ),
    {
        let now = now_ms;
        let ttl = self.config.ttl_seconds;
        let before = self.sessions.len();
        let mut kept: Vec<(String, SessionData)> = Vec::new();
        let ghost pre = self.sessions@;
        proof {
            reveal_with_fuel(Seq::<(String, SessionData)>::filter, 1);
            assert(pre.subrange(0, 0) =~= Seq::<(String, SessionData)>::empty());
            assert(spec_survivors(pre.subrange(0, 0), ttl, now).len() == 0);
        }
        let mut i: usize = 0;
        while i < self.sessions.len()
            invariant
                i <= pre.len(),
                self.sessions@ == pre,
                ttl == self.spec_config().ttl_seconds,
                kept@.len() <= i,
                kept@.len() == spec_survivors(pre.subrange(0, i as int), ttl, now).len(),
                forall|k: int|
                    0 <= k < kept@.len() ==> entry_like(
                        spec_survivors(pre.subrange(0, i as int), ttl, now)[k],
                        #[trigger] kept@[k],
                    ),
                forall|k: int|
                    0 <= k < kept@.len() ==> from_registry(
                        pre.subrange(0, i as int),
                        #[trigger] kept@[k],
                    ),
                forall|k1: int, k2: int|
                    0 <= k1 < k2 < kept@.len() ==> (#[trigger] kept@[k1]).0@ != (
                    #[trigger] kept@[k2]).0@,
                forall|k: int|
                    0 <= k < kept@.len() ==> (#[trigger] kept@[k]).0@ == kept@[k].1.session_id@,
                forall|i1: int, j1: int|
                    0 <= i1 < j1 < pre.len() ==> (#[trigger] pre[i1]).0@ != (#[trigger] pre[j1]).0@,
                forall|i1: int| 0 <= i1 < pre.len() ==> (#[trigger] pre[i1]).0@ == pre[i1].1.session_id@,
            decreases self.sessions.len() - i,
        {
            let expired = self.sessions[i].1.is_expired_at(ttl, now);
            proof {
                // One filter unfolding: the survivors of the prefix grown by
                // this entry are the survivors so far, with the entry
                // appended when it is not expired.
                reveal_with_fuel(Seq::<(String, SessionData)>::filter, 1);
                let s1 = pre.subrange(0, i + 1);
                assert(s1.drop_last() =~= pre.subrange(0, i as int));
                assert(s1.last() == pre[i as int]);
                assert(spec_survivors(s1, ttl, now) == (if !spec_expired_at(
                    pre[i as int].1,
                    ttl,
                    now,
                ) {
                    spec_survivors(pre.subrange(0, i as int), ttl, now).push(pre[i as int])
                } else {
                    spec_survivors(pre.subrange(0, i as int), ttl, now)
                }));
            }
            if !expired {
                let ghost kpre = kept@;
                let pair = (self.sessions[i].0.clone(), self.sessions[i].1.clone());
                proof {
                    assert(entry_like(pre[i as int], pair));
                    assert(pre.subrange(0, i + 1)[i as int] == pre[i as int]);
                    assert(from_registry(pre.subrange(0, i + 1), pair));
                    assert forall|k: int| 0 <= k < kpre.len() implies (#[trigger] kpre[k]).0@
                        != pre[i as int].0@ by {
                        assert(from_registry(pre.subrange(0, i as int), kpre[k]));
                        let j = choose|j: int|
                            0 <= j < pre.subrange(0, i as int).len() && entry_like(
                                #[trigger] pre.subrange(0, i as int)[j],
                                kpre[k],
                            );
                        assert(pre.subrange(0, i as int)[j] == pre[j]);
                        assert(pre[j].0@ != pre[i as int].0@);
                    }
                    assert forall|k: int| 0 <= k < kpre.len() implies from_registry(
                        pre.subrange(0, i + 1),
                        #[trigger] kpre[k],
                    ) by {
                        let j = choose|j: int|
                            0 <= j < pre.subrange(0, i as int).len() && entry_like(
                                #[trigger] pre.subrange(0, i as int)[j],
                                kpre[k],
                            );
                        assert(pre.subrange(0, i + 1)[j] == pre[j]);
                        assert(entry_like(pre.subrange(0, i + 1)[j], kpre[k]));
                    }
                }
                kept.push(pair);
            }
            i += 1;
        }
        proof {
            assert(kept@.len() <= pre.len());
            assert(pre.subrange(0, pre.len() as int) =~= pre);
            reveal(reaped_at);
            assert(reaped_at(pre, kept@, ttl, now));
        }
        self.sessions = kept;
        before - self.sessions.len()
    }
}

/// Number of records in the Active state.
pub open spec fn spec_count_active(s: Seq<(String, SessionData)>) -> int
    decreases s.len(),
{
    if s.len() == 0 {
        0
    } else {
        spec_count_active(s.drop_last()) + (if s.last().1.state == SessionState::Active {
            1int
        } else {
            0int
        })
    }
}

proof fn lemma_count_active_bound(s: Seq<(String, SessionData)>)
    ensures
        0 <= spec_count_active(s) <= s.len(),
    decreases s.len(),
{
    if s.len() > 0 {
        lemma_count_active_bound(s.drop_last());
    }
}

} // verus!
