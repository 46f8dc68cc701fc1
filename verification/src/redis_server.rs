//! The keys under which sessions and mail tokens are kept in Redis, their
//! lifetimes, and a model of the store that shows what reads give back.
use vstd::prelude::*;

verus! {

/// Seconds a session lives without activity (10 minutes).
pub const DEFAULT_SESSION_EXPIRATION: usize = 600;
/// Seconds a signup confirmation token lives (1 hour).
pub const DEFAULT_MAILCONF_EXPIRATION: usize = 3600;
/// Seconds a password restore token lives (15 minutes).
pub const DEFAULT_PWDRESTORE_EXPIRATION: usize = 900;

/// `sessionId`
pub open spec fn session_id_prefix() -> Seq<char> {
    seq!['s', 'e', 's', 's', 'i', 'o', 'n', 'I', 'd']
}

/// `sessionUser`
pub open spec fn session_user_prefix() -> Seq<char> {
    seq!['s', 'e', 's', 's', 'i', 'o', 'n', 'U', 's', 'e', 'r']
}

/// `confirmationId`
pub open spec fn confirmation_prefix() -> Seq<char> {
    seq!['c', 'o', 'n', 'f', 'i', 'r', 'm', 'a', 't', 'i', 'o', 'n', 'I', 'd']
}

/// `restoreId`
pub open spec fn restore_prefix() -> Seq<char> {
    seq!['r', 'e', 's', 't', 'o', 'r', 'e', 'I', 'd']
}

/// The key that maps a session id to its user name.
pub fn sessionIdKey(sessionId: &str) -> (res: String)
    ensures
        res@ == session_id_prefix() + sessionId@,
{
    proof {
        reveal_strlit("sessionId");
    }
    String::from_str("sessionId").concat(sessionId)
}

/// The key that maps a user name to its session id.
pub fn sessionUserKey(username: &str) -> (res: String)
    ensures
        res@ == session_user_prefix() + username@,
{
    proof {
        reveal_strlit("sessionUser");
    }
    String::from_str("sessionUser").concat(username)
}

/// The key that maps a signup confirmation id to the user it confirms.
pub fn confirmationKey(id: &str) -> (res: String)
    ensures
        res@ == confirmation_prefix() + id@,
{
    proof {
        reveal_strlit("confirmationId");
    }
    String::from_str("confirmationId").concat(id)
}

/// The key that maps a password restore id to the user it restores.
pub fn restoreKey(id: &str) -> (res: String)
    ensures
        res@ == restore_prefix() + id@,
{
    proof {
        reveal_strlit("restoreId");
    }
    String::from_str("restoreId").concat(id)
}

/// A key stored with a value and a lifetime in seconds.
#[derive(Debug)]
pub struct RedisEntry {
    pub key: String,
    pub value: String,
    pub ttl: usize,
}

impl View for RedisEntry {
    type V = (Seq<char>, Seq<char>, nat);

    open spec fn view(&self) -> (Seq<char>, Seq<char>, nat) {
        (self.key@, self.value@, self.ttl as nat)
    }
}

/// The store, as a map from keys to values, after the pairs are written in
/// order (lifetimes left out).
pub open spec fn store_set(store: Map<Seq<char>, Seq<char>>, pairs: Seq<(Seq<char>, Seq<char>)>) -> Map<Seq<char>, Seq<char>>
    decreases pairs.len(),
{
    if pairs.len() == 0 {
        store
    } else {
        let e = pairs.last();
        store_set(store, pairs.drop_last()).insert(e.0, e.1)
    }
}

/// The store after the keys are deleted.
pub open spec fn store_delete(store: Map<Seq<char>, Seq<char>>, keys: Seq<Seq<char>>) -> Map<Seq<char>, Seq<char>>
    decreases keys.len(),
{
    if keys.len() == 0 {
        store
    } else {
        store_delete(store, keys.drop_last()).remove(keys.last())
    }
}

proof fn lemma_prefixed_ne(p: Seq<char>, a: Seq<char>, q: Seq<char>, b: Seq<char>, i: int)
    requires
        0 <= i < p.len(),
        i < q.len(),
        p[i] != q[i],
    ensures
        p + a != q + b,
{
    assert((p + a)[i] == p[i]);
    assert((q + b)[i] == q[i]);
}

proof fn lemma_prefixed_injective(p: Seq<char>, a: Seq<char>, b: Seq<char>)
    requires
        p + a == p + b,
    ensures
        a == b,
{
    assert(a =~= (p + a).subrange(p.len() as int, (p + a).len() as int));
    assert(b =~= (p + b).subrange(p.len() as int, (p + b).len() as int));
}

/// Keys of different kinds never coincide, so sessions, user index entries,
/// confirmation tokens and restore tokens never overwrite one another; and
/// each kind of key determines its id: equal keys come from equal ids.
pub proof fn law_key_namespaces(a: Seq<char>, b: Seq<char>)
    ensures
        session_id_prefix() + a != session_user_prefix() + b,
        session_id_prefix() + a != confirmation_prefix() + b,
        session_id_prefix() + a != restore_prefix() + b,
        session_user_prefix() + a != confirmation_prefix() + b,
        session_user_prefix() + a != restore_prefix() + b,
        confirmation_prefix() + a != restore_prefix() + b,
        session_id_prefix() + a == session_id_prefix() + b ==> a == b,
        session_user_prefix() + a == session_user_prefix() + b ==> a == b,
        confirmation_prefix() + a == confirmation_prefix() + b ==> a == b,
        restore_prefix() + a == restore_prefix() + b ==> a == b,
{
    lemma_prefixed_ne(session_id_prefix(), a, session_user_prefix(), b, 7);
    lemma_prefixed_ne(session_id_prefix(), a, confirmation_prefix(), b, 0);
    lemma_prefixed_ne(session_id_prefix(), a, restore_prefix(), b, 0);
    lemma_prefixed_ne(session_user_prefix(), a, confirmation_prefix(), b, 0);
    lemma_prefixed_ne(session_user_prefix(), a, restore_prefix(), b, 0);
    lemma_prefixed_ne(confirmation_prefix(), a, restore_prefix(), b, 0);
    if session_id_prefix() + a == session_id_prefix() + b {
        lemma_prefixed_injective(session_id_prefix(), a, b);
    }
    if session_user_prefix() + a == session_user_prefix() + b {
        lemma_prefixed_injective(session_user_prefix(), a, b);
    }
    if confirmation_prefix() + a == confirmation_prefix() + b {
        lemma_prefixed_injective(confirmation_prefix(), a, b);
    }
    if restore_prefix() + a == restore_prefix() + b {
        lemma_prefixed_injective(restore_prefix(), a, b);
    }
}

} // verus!
