//! Login sessions: a random id bound to a user name in both directions.
use vstd::prelude::*;
use crate::misc::{generateRnd, hex_upper, is_upper_hex_char, sha512_224_digest, utc_now, Moment};
use crate::redis_server::{law_key_namespaces, sessionIdKey, sessionUserKey, session_id_prefix, session_user_prefix, store_delete, store_set, RedisEntry, DEFAULT_SESSION_EXPIRATION};

verus! {

/// A login session, with the moment it was created.
#[derive(Debug)]
pub struct Session {
    pub username: String,
    pub id: String,
    pub creationDate: Option<Moment>,
}

/// The two pairs a session writes: id to user name, and user name to id.
pub open spec fn session_pairs(username: Seq<char>, id: Seq<char>) -> Seq<(Seq<char>, Seq<char>)> {
    seq![(session_id_prefix() + id, username), (session_user_prefix() + username, id)]
}

/// The two keys a session occupies.
pub open spec fn session_keys(username: Seq<char>, id: Seq<char>) -> Seq<Seq<char>> {
    seq![session_id_prefix() + id, session_user_prefix() + username]
}

impl Session {
    /// A new session for a user: a fresh random id of 56 upper-case
    /// hexadecimal digits, created now.
    pub fn new(user: String) -> (res: Session)
        ensures
            res.username == user,
            exists|entropy: Seq<u8>|
                entropy.len() == 8 && res.id@ == hex_upper(#[trigger] sha512_224_digest(entropy)),
            res.id@.len() == 56,
            forall|i: int| 0 <= i < res.id@.len() ==> is_upper_hex_char(#[trigger] res.id@[i]),
            res.creationDate is Some,
    {
        let id = generateRnd(64);
        Session { username: user, id, creationDate: Some(utc_now()) }
    }

    /// What creating the session writes: the id key holding the user name and
    /// the user key holding the id, both living `DEFAULT_SESSION_EXPIRATION`
    /// seconds.
    pub fn createSession(&self) -> (res: Vec<RedisEntry>)
        ensures
            res@.len() == 2,
            res@[0]@ == (session_id_prefix() + self.id@, self.username@, DEFAULT_SESSION_EXPIRATION as nat),
            res@[1]@ == (session_user_prefix() + self.username@, self.id@, DEFAULT_SESSION_EXPIRATION as nat),
    {
        let mut res: Vec<RedisEntry> = Vec::new();
        res.push(RedisEntry {
            key: sessionIdKey(self.id.as_str()),
            value: self.username.clone(),
            ttl: DEFAULT_SESSION_EXPIRATION,
        });
        res.push(RedisEntry {
            key: sessionUserKey(self.username.as_str()),
            value: self.id.clone(),
            ttl: DEFAULT_SESSION_EXPIRATION,
        });
        res
    }

    /// The keys of the session with this id whose user is `username`: they are
    /// what refreshing renews and what deleting removes.
    pub fn sessionKeys(sessionId: &str, username: &str) -> (res: Vec<String>)
        ensures
            res@.len() == 2,
            res@[0]@ == session_id_prefix() + sessionId@,
            res@[1]@ == session_user_prefix() + username@,
    {
        let mut res: Vec<String> = Vec::new();
        res.push(sessionIdKey(sessionId));
        res.push(sessionUserKey(username));
        res
    }
}

/// Reading back a created session: the id key gives the user name, the user
/// key gives the id, and every other key keeps its value.
pub proof fn law_session_create_then_read(store: Map<Seq<char>, Seq<char>>, username: Seq<char>, id: Seq<char>)
    ensures
        ({
            let s = store_set(store, session_pairs(username, id));
            &&& s.contains_key(session_id_prefix() + id)
            &&& s[session_id_prefix() + id] == username
            &&& s.contains_key(session_user_prefix() + username)
            &&& s[session_user_prefix() + username] == id
            &&& forall|k: Seq<char>|
                #![trigger s.contains_key(k)]
                k != session_id_prefix() + id && k != session_user_prefix() + username
                    ==> (s.contains_key(k) == store.contains_key(k) && (store.contains_key(k) ==> s[k] == store[k]))
        }),
{
    law_key_namespaces(id, username);
    let pairs = session_pairs(username, id);
    assert(pairs.drop_last().drop_last() =~= Seq::<(Seq<char>, Seq<char>)>::empty());
    assert(pairs.drop_last() =~= seq![(session_id_prefix() + id, username)]);
    assert(store_set(store, pairs.drop_last()) == store_set(store, pairs.drop_last().drop_last()).insert(
        session_id_prefix() + id,
        username,
    ));
}

/// Deleting a session's keys leaves neither key and touches no other key.
pub proof fn law_session_delete(store: Map<Seq<char>, Seq<char>>, username: Seq<char>, id: Seq<char>)
    ensures
        ({
            let s = store_delete(store, session_keys(username, id));
            &&& !s.contains_key(session_id_prefix() + id)
            &&& !s.contains_key(session_user_prefix() + username)
            &&& forall|k: Seq<char>|
                #![trigger s.contains_key(k)]
                k != session_id_prefix() + id && k != session_user_prefix() + username
                    ==> (s.contains_key(k) == store.contains_key(k) && (store.contains_key(k) ==> s[k] == store[k]))
        }),
{
    let keys = session_keys(username, id);
    assert(keys.drop_last().drop_last() =~= Seq::<Seq<char>>::empty());
    assert(keys.drop_last() =~= seq![session_id_prefix() + id]);
    assert(store_delete(store, keys.drop_last()) == store_delete(store, keys.drop_last().drop_last()).remove(
        session_id_prefix() + id,
    ));
}

/// The session keys of a store agree: every session id key names a user
/// whose user key holds that id back, and every user key holds an id whose
/// id key names that user. So each user has at most one session.
pub open spec fn one_session_per_user(store: Map<Seq<char>, Seq<char>>) -> bool {
    &&& forall|id: Seq<char>|
        #[trigger] store.contains_key(session_id_prefix() + id) ==> {
            let n = store[session_id_prefix() + id];
            store.contains_key(session_user_prefix() + n) && store[session_user_prefix() + n] == id
        }
    &&& forall|n: Seq<char>|
        #[trigger] store.contains_key(session_user_prefix() + n) ==> {
            let id = store[session_user_prefix() + n];
            store.contains_key(session_id_prefix() + id) && store[session_id_prefix() + id] == n
        }
}

/// The store after a login of `n` with the fresh session id `id`: the user's
/// open session, if any, is deleted, then the new one written.
pub open spec fn store_after_login(store: Map<Seq<char>, Seq<char>>, n: Seq<char>, id: Seq<char>) -> Map<Seq<char>, Seq<char>> {
    let cleared = if store.contains_key(session_user_prefix() + n) {
        store_delete(store, session_keys(n, store[session_user_prefix() + n]))
    } else {
        store
    };
    store_set(cleared, session_pairs(n, id))
}

/// The store after logging out of the session `id`: both keys of that
/// session are deleted.
pub open spec fn store_after_logout(store: Map<Seq<char>, Seq<char>>, id: Seq<char>) -> Map<Seq<char>, Seq<char>> {
    store_delete(store, session_keys(store[session_id_prefix() + id], id))
}

proof fn lemma_delete_keeps_one_session(store: Map<Seq<char>, Seq<char>>, n: Seq<char>, id: Seq<char>)
    requires
        one_session_per_user(store),
        store.contains_key(session_id_prefix() + id),
        store[session_id_prefix() + id] == n,
    ensures
        one_session_per_user(store_delete(store, session_keys(n, id))),
        !store_delete(store, session_keys(n, id)).contains_key(session_id_prefix() + id),
        !store_delete(store, session_keys(n, id)).contains_key(session_user_prefix() + n),
{
    let d = store_delete(store, session_keys(n, id));
    law_session_delete(store, n, id);
    assert forall|id2: Seq<char>| #[trigger] d.contains_key(session_id_prefix() + id2) implies {
        let n2 = d[session_id_prefix() + id2];
        d.contains_key(session_user_prefix() + n2) && d[session_user_prefix() + n2] == id2
    } by {
        law_key_namespaces(id2, n);
        law_key_namespaces(id2, id);
        let n2 = store[session_id_prefix() + id2];
        assert(session_id_prefix() + id2 != session_id_prefix() + id);
        assert(store.contains_key(session_id_prefix() + id2));
        law_key_namespaces(n2, n);
        law_key_namespaces(id, n2);
        if n2 == n {
            assert(store[session_user_prefix() + n] == id2);
            assert(store[session_user_prefix() + n] == id);
        }
        assert(session_user_prefix() + n2 != session_user_prefix() + n);
    }
    assert forall|n2: Seq<char>| #[trigger] d.contains_key(session_user_prefix() + n2) implies {
        let id2 = d[session_user_prefix() + n2];
        d.contains_key(session_id_prefix() + id2) && d[session_id_prefix() + id2] == n2
    } by {
        law_key_namespaces(id, n2);
        law_key_namespaces(n2, n);
        let id2 = store[session_user_prefix() + n2];
        assert(session_user_prefix() + n2 != session_user_prefix() + n);
        assert(store.contains_key(session_user_prefix() + n2));
        law_key_namespaces(id2, id);
        law_key_namespaces(id2, n);
        if id2 == id {
            assert(store[session_id_prefix() + id] == n2);
        }
        assert(session_id_prefix() + id2 != session_id_prefix() + id);
    }
}

/// Logging out keeps one session per user, and the session is gone.
pub proof fn law_logout_keeps_one_session(store: Map<Seq<char>, Seq<char>>, id: Seq<char>)
    requires
        one_session_per_user(store),
        store.contains_key(session_id_prefix() + id),
    ensures
        one_session_per_user(store_after_logout(store, id)),
        !store_after_logout(store, id).contains_key(session_id_prefix() + id),
{
    lemma_delete_keeps_one_session(store, store[session_id_prefix() + id], id);
}

/// A login keeps one session per user: with a fresh session id, the user's
/// open session, if any, is replaced by the new one, whose two keys point at
/// each other, and every other session stays as it was.
pub proof fn law_login_keeps_one_session(store: Map<Seq<char>, Seq<char>>, n: Seq<char>, id: Seq<char>)
    requires
        one_session_per_user(store),
        !store.contains_key(session_id_prefix() + id),
    ensures
        one_session_per_user(store_after_login(store, n, id)),
        store_after_login(store, n, id)[session_user_prefix() + n] == id,
        store_after_login(store, n, id)[session_id_prefix() + id] == n,
{
    let cleared = if store.contains_key(session_user_prefix() + n) {
        store_delete(store, session_keys(n, store[session_user_prefix() + n]))
    } else {
        store
    };
    if store.contains_key(session_user_prefix() + n) {
        let old = store[session_user_prefix() + n];
        lemma_delete_keeps_one_session(store, n, old);
        law_session_delete(store, n, old);
    }
    assert(one_session_per_user(cleared));
    assert(!cleared.contains_key(session_user_prefix() + n));
    assert(!cleared.contains_key(session_id_prefix() + id));
    let s = store_set(cleared, session_pairs(n, id));
    law_session_create_then_read(cleared, n, id);
    assert forall|id2: Seq<char>| #[trigger] s.contains_key(session_id_prefix() + id2) implies {
        let n2 = s[session_id_prefix() + id2];
        s.contains_key(session_user_prefix() + n2) && s[session_user_prefix() + n2] == id2
    } by {
        law_key_namespaces(id2, n);
        if id2 != id {
            law_key_namespaces(id2, id);
            assert(session_id_prefix() + id2 != session_id_prefix() + id);
            assert(cleared.contains_key(session_id_prefix() + id2));
            let n2 = cleared[session_id_prefix() + id2];
            law_key_namespaces(id, n2);
            law_key_namespaces(n2, n);
            assert(cleared.contains_key(session_user_prefix() + n2));
            assert(session_user_prefix() + n2 != session_user_prefix() + n);
            assert(s[session_id_prefix() + id2] == n2);
            assert(s.contains_key(session_user_prefix() + n2));
            assert(s[session_user_prefix() + n2] == cleared[session_user_prefix() + n2]);
            assert(cleared[session_user_prefix() + n2] == id2);
        } else {
            assert(s[session_id_prefix() + id] == n);
            assert(s.contains_key(session_user_prefix() + n));
            assert(s[session_user_prefix() + n] == id);
        }
    }
    assert forall|n2: Seq<char>| #[trigger] s.contains_key(session_user_prefix() + n2) implies {
        let id2 = s[session_user_prefix() + n2];
        s.contains_key(session_id_prefix() + id2) && s[session_id_prefix() + id2] == n2
    } by {
        law_key_namespaces(id, n2);
        if n2 != n {
            law_key_namespaces(n2, n);
            assert(session_user_prefix() + n2 != session_user_prefix() + n);
            assert(cleared.contains_key(session_user_prefix() + n2));
            let id2 = cleared[session_user_prefix() + n2];
            law_key_namespaces(id2, n);
            law_key_namespaces(id2, id);
            assert(cleared.contains_key(session_id_prefix() + id2));
            assert(session_id_prefix() + id2 != session_id_prefix() + id);
            assert(s[session_user_prefix() + n2] == id2);
            assert(s.contains_key(session_id_prefix() + id2));
            assert(s[session_id_prefix() + id2] == cleared[session_id_prefix() + id2]);
            assert(cleared[session_id_prefix() + id2] == n2);
        } else {
            assert(s[session_user_prefix() + n] == id);
            assert(s.contains_key(session_id_prefix() + id));
            assert(s[session_id_prefix() + id] == n);
        }
    }
}

} // verus!
