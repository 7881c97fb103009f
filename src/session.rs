use vstd::prelude::*;

use crate::error::BotError;
use crate::time::unix_time_current;

verus! {

/// One binding of a bearer token to a chat.
#[derive(Debug)]
pub struct Session {
    pub token: Vec<u8>,
    pub chat_id: i64,
    pub created_at: i64,
}

/// The token bound to `chat`, if any.
pub open spec fn token_of_chat(m: Map<i64, Seq<u8>>, chat: i64) -> Option<Seq<u8>> {
    if m.contains_key(chat) {
        Some(m[chat])
    } else {
        None
    }
}

/// Whether some chat holds `token`.
pub open spec fn token_in_use(m: Map<i64, Seq<u8>>, token: Seq<u8>) -> bool {
    exists|c: i64| m.contains_key(c) && m[c] == token
}

/// The chat that holds `token`, if any.
pub open spec fn chat_of_token(m: Map<i64, Seq<u8>>, token: Seq<u8>) -> Option<i64> {
    if token_in_use(m, token) {
        Some(choose|c: i64| m.contains_key(c) && m[c] == token)
    } else {
        None
    }
}

/// Whether a chat other than `chat` holds `token`.
pub open spec fn token_taken_elsewhere(m: Map<i64, Seq<u8>>, token: Seq<u8>, chat: i64) -> bool {
    exists|c: i64| c != chat && m.contains_key(c) && m[c] == token
}

/// No two chats share a token.
pub open spec fn tokens_distinct(m: Map<i64, Seq<u8>>) -> bool {
    forall|a: i64, b: i64|
        m.contains_key(a) && m.contains_key(b) && #[trigger] m[a] == #[trigger] m[b] ==> a == b
}

/// The table after `chat` is bound to `token`, replacing its earlier binding.
pub open spec fn with_session(m: Map<i64, Seq<u8>>, token: Seq<u8>, chat: i64) -> Map<i64, Seq<u8>> {
    m.insert(chat, token)
}

/// The table after the binding of `chat` is removed.
pub open spec fn without_session(m: Map<i64, Seq<u8>>, chat: i64) -> Map<i64, Seq<u8>> {
    m.remove(chat)
}

/// Once `token` is bound to `chat` where no other chat held it, `chat`'s token
/// is `token` and `token` belongs to `chat`.
pub proof fn lemma_create_then_find(m: Map<i64, Seq<u8>>, token: Seq<u8>, chat: i64)
    requires
        tokens_distinct(m),
        !token_taken_elsewhere(m, token, chat),
    ensures
        tokens_distinct(with_session(m, token, chat)),
        token_of_chat(with_session(m, token, chat), chat) == Some(token),
        chat_of_token(with_session(m, token, chat), token) == Some(chat),
{
    let n = with_session(m, token, chat);
    assert(n.contains_key(chat) && n[chat] == token);
    let w = choose|c: i64| n.contains_key(c) && n[c] == token;
    if w != chat {
        assert(m.contains_key(w) && m[w] == token);
    }
    assert forall|a: i64, b: i64|
        n.contains_key(a) && n.contains_key(b) && #[trigger] n[a] == #[trigger] n[b] implies a == b by {
        if a != chat && b == chat {
            assert(m.contains_key(a) && m[a] == token);
        }
        if b != chat && a == chat {
            assert(m.contains_key(b) && m[b] == token);
        }
    }
}

/// A second session for a chat replaces the first: after binding `t1` and
/// then a different `t2` to `chat`, `t1` belongs to no chat and `t2` to `chat`.
pub proof fn lemma_second_session_replaces_first(
    m: Map<i64, Seq<u8>>,
    t1: Seq<u8>,
    t2: Seq<u8>,
    chat: i64,
)
    requires
        tokens_distinct(m),
        t1 != t2,
        !token_taken_elsewhere(m, t1, chat),
        !token_taken_elsewhere(with_session(m, t1, chat), t2, chat),
    ensures
        chat_of_token(with_session(with_session(m, t1, chat), t2, chat), t1) is None,
        chat_of_token(with_session(with_session(m, t1, chat), t2, chat), t2) == Some(chat),
{
    let m1 = with_session(m, t1, chat);
    lemma_create_then_find(m, t1, chat);
    lemma_create_then_find(m1, t2, chat);
    let m2 = with_session(m1, t2, chat);
    assert forall|c: i64| !(m2.contains_key(c) && m2[c] == t1) by {
        if c != chat && m2.contains_key(c) && m2[c] == t1 {
            assert(m.contains_key(c) && m[c] == t1);
        }
    }
}

/// After the session of `chat` is removed, `chat` has no token; removing a
/// session that does not exist changes nothing.
pub proof fn lemma_delete_then_find(m: Map<i64, Seq<u8>>, chat: i64)
    ensures
        token_of_chat(without_session(m, chat), chat) is None,
        !m.contains_key(chat) ==> without_session(m, chat) == m,
{
    if !m.contains_key(chat) {
        assert(m.remove(chat) =~= m);
    }
}

/// In-memory session table: at most one session per chat, tokens unique.
pub struct SessionStore {
    sessions: Vec<Session>,
    bindings: Ghost<Map<i64, Seq<u8>>>,
}

impl View for SessionStore {
    type V = Map<i64, Seq<u8>>;

    closed spec fn view(&self) -> Map<i64, Seq<u8>> {
        self.bindings@
    }
}

/// Whether two byte strings are equal.
pub fn bytes_equal(a: &[u8], b: &[u8]) -> (r: bool)
    ensures
        r == (a@ == b@),
{
    if a.len() != b.len() {
        return false;
    }
    let mut i: usize = 0;
    while i < a.len()
        invariant
            a@.len() == b@.len(),
            0 <= i <= a@.len(),
            forall|k: int| 0 <= k < i ==> a@[k] == b@[k],
        decreases a@.len() - i,
    {
        if a[i] != b[i] {
            return false;
        }
        i = i + 1;
    }
    assert(a@ =~= b@);
    true
}

/// A fresh vector holding the bytes of `a`.
pub fn copy_bytes(a: &[u8]) -> (r: Vec<u8>)
    ensures
        r@ == a@,
{
    let mut r: Vec<u8> = Vec::new();
    let mut i: usize = 0;
    while i < a.len()
        invariant
            0 <= i <= a@.len(),
            r@ == a@.subrange(0, i as int),
        decreases a@.len() - i,
    {
        r.push(a[i]);
        i = i + 1;
        assert(r@ =~= a@.subrange(0, i as int));
    }
    assert(a@ =~= a@.subrange(0, a@.len() as int));
    r
}

impl SessionStore {
    /// Well-formedness: the records and the bindings agree, one record per chat.
    pub closed spec fn wf(&self) -> bool {
        let v = self.sessions@;
        let m = self.bindings@;
        &&& forall|i: int|
            0 <= i < v.len() ==> m.contains_key(#[trigger] v[i].chat_id) && m[v[i].chat_id]
                == v[i].token@
        &&& forall|c: i64| m.contains_key(c) ==> exists|i: int| 0 <= i < v.len() && #[trigger] v[i].chat_id == c
        &&& forall|i: int, j: int|
            0 <= i < v.len() && 0 <= j < v.len() && i != j ==> #[trigger] v[i].chat_id != #[trigger] v[j].chat_id
        &&& tokens_distinct(m)
    }

    /// An empty table.
    pub fn new() -> (r: SessionStore)
        ensures
            r.wf(),
            r@ == Map::<i64, Seq<u8>>::empty(),
    {
        SessionStore { sessions: Vec::new(), bindings: Ghost(Map::empty()) }
    }

    /// Every well-formed table has distinct tokens.
    pub proof fn lemma_tokens_distinct(&self)
        requires
            self.wf(),
        ensures
            tokens_distinct(self@),
    {
    }

    /// Index of the record of `chat_id`, if there is one.
    fn position_of_chat(&self, chat_id: i64) -> (r: Option<usize>)
        requires
            self.wf(),
        ensures
            match r {
                Some(i) => i < self.sessions@.len() && self.sessions@[i as int].chat_id == chat_id,
                None => !self@.contains_key(chat_id),
            },
    {
        let mut i: usize = 0;
        while i < self.sessions.len()
            invariant
                0 <= i <= self.sessions@.len(),
                forall|k: int| 0 <= k < i ==> #[trigger] self.sessions@[k].chat_id != chat_id,
            decreases self.sessions@.len() - i,
        {
            if self.sessions[i].chat_id == chat_id {
                return Some(i);
            }
            i = i + 1;
        }
        None
    }

    /// Point lookup of the token bound to `chat_id`.
    pub fn find_token_by_chat(&self, chat_id: i64) -> (r: Option<Vec<u8>>)
        requires
            self.wf(),
        ensures
            match r {
                Some(t) => token_of_chat(self@, chat_id) == Some(t@),
                None => token_of_chat(self@, chat_id) is None,
            },
    {
        match self.position_of_chat(chat_id) {
            Some(i) => Some(copy_bytes(self.sessions[i].token.as_slice())),
            None => None,
        }
    }

    /// Point lookup of the chat that holds `token`.
    pub fn find_chat_by_token(&self, token: &[u8]) -> (r: Option<i64>)
        requires
            self.wf(),
        ensures
            r == chat_of_token(self@, token@),
    {
        let mut i: usize = 0;
        while i < self.sessions.len()
            invariant
                self.wf(),
                0 <= i <= self.sessions@.len(),
                forall|k: int| 0 <= k < i ==> #[trigger] self.sessions@[k].token@ != token@,
            decreases self.sessions@.len() - i,
        {
            if bytes_equal(self.sessions[i].token.as_slice(), token) {
                let c = self.sessions[i].chat_id;
                proof {
                    let m = self@;
                    assert(m.contains_key(c) && m[c] == token@);
                    let w = choose|d: i64| m.contains_key(d) && m[d] == token@;
                    assert(m[w] == m[c]);
                }
                return Some(c);
            }
            i = i + 1;
        }
        proof {
            let m = self@;
            assert forall|c: i64| !(m.contains_key(c) && m[c] == token@) by {
                if m.contains_key(c) {
                    let k = choose|k: int| 0 <= k < self.sessions@.len() && #[trigger] self.sessions@[k].chat_id == c;
                    assert(self.sessions@[k].token@ != token@);
                }
            }
        }
        None
    }

    /// Whether a chat other than `chat_id` holds `token`.
    fn token_held_elsewhere(&self, token: &[u8], chat_id: i64) -> (r: bool)
        requires
            self.wf(),
        ensures
            r == token_taken_elsewhere(self@, token@, chat_id),
    {
        let mut i: usize = 0;
        while i < self.sessions.len()
            invariant
                self.wf(),
                0 <= i <= self.sessions@.len(),
                forall|k: int|
                    0 <= k < i ==> #[trigger] self.sessions@[k].chat_id == chat_id
                        || self.sessions@[k].token@ != token@,
            decreases self.sessions@.len() - i,
        {
            if self.sessions[i].chat_id != chat_id && bytes_equal(
                self.sessions[i].token.as_slice(),
                token,
            ) {
                proof {
                    let c = self.sessions@[i as int].chat_id;
                    assert(c != chat_id && self@.contains_key(c) && self@[c] == token@);
                }
                return true;
            }
            i = i + 1;
        }
        proof {
            let m = self@;
            assert forall|c: i64| !(c != chat_id && m.contains_key(c) && m[c] == token@) by {
                if c != chat_id && m.contains_key(c) {
                    let k = choose|k: int| 0 <= k < self.sessions@.len() && #[trigger] self.sessions@[k].chat_id == c;
                    assert(self.sessions@[k].token@ != token@);
                }
            }
        }
        false
    }

    /// Removes the session of `chat_id`; a no-op when there is none.
    pub fn delete_session(&mut self, chat_id: i64)
        requires
            old(self).wf(),
        ensures
            final(self).wf(),
            final(self)@ == without_session(old(self)@, chat_id),
    {
        match self.position_of_chat(chat_id) {
            None => {
                assert(self@ =~= self@.remove(chat_id));
                assert(self.wf());
            },
            Some(i) => {
                let ghost v = self.sessions@;
                let ghost m = self@;
                self.sessions.remove(i);
                self.bindings = Ghost(m.remove(chat_id));
                proof {
                    let nv = self.sessions@;
                    assert(nv =~= v.remove(i as int));
                    let nm = self.bindings@;
                    assert(nm == m.remove(chat_id));
                    assert forall|c: i64| nm.contains_key(c) implies exists|j: int|
                        0 <= j < nv.len() && #[trigger] nv[j].chat_id == c by {
                        assert(m.contains_key(c) && c != chat_id);
                        assert(exists|k: int| 0 <= k < v.len() && #[trigger] v[k].chat_id == c);
                        let k = choose|k: int| 0 <= k < v.len() && #[trigger] v[k].chat_id == c;
                        if k < i {
                            assert(nv[k] == v[k]);
                            assert(nv[k].chat_id == c);
                        } else {
                            assert(k != i);
                            assert(nv[k - 1] == v[k]);
                            assert(nv[k - 1].chat_id == c);
                        }
                    }
                    assert forall|a: int, b: int|
                        0 <= a < nv.len() && 0 <= b < nv.len() && a != b implies #[trigger] nv[a].chat_id
                        != #[trigger] nv[b].chat_id by {
                        let ia = if a < i { a } else { a + 1 };
                        let ib = if b < i { b } else { b + 1 };
                        assert(nv[a] == v[ia]);
                        assert(nv[b] == v[ib]);
                    }
                    assert forall|x: i64, y: i64|
                        self@.contains_key(x) && self@.contains_key(y) && #[trigger] self@[x]
                            == #[trigger] self@[y] implies x == y by {
                        assert(m[x] == m[y]);
                    }
                    assert forall|j: int| 0 <= j < nv.len() implies self@.contains_key(
                        #[trigger] nv[j].chat_id,
                    ) && self@[nv[j].chat_id] == nv[j].token@ by {
                        if j < i {
                            assert(nv[j] == v[j]);
                        } else {
                            assert(nv[j] == v[j + 1]);
                            assert(v[j + 1].chat_id != v[i as int].chat_id);
                        }
                    }
                    assert(self.wf());
                }
            },
        }
    }

    /// Binds `token` to `chat_id`, replacing any earlier session of that chat.
    /// Fails, changing nothing, when another chat holds `token`.
    pub fn create_session(&mut self, token: &[u8], chat_id: i64) -> (r: Result<(), BotError>)
        requires
            old(self).wf(),
        ensures
            final(self).wf(),
            r is Err <==> token_taken_elsewhere(old(self)@, token@, chat_id),
            match r {
                Ok(()) => final(self)@ == with_session(old(self)@, token@, chat_id),
                Err(e) => final(self)@ == old(self)@ && e == BotError::Storage,
            },
    {
        if self.token_held_elsewhere(token, chat_id) {
            return Err(BotError::Storage);
        }
        let ghost m0 = self@;
        self.delete_session(chat_id);
        let created_at = unix_time_current();
        let ghost v = self.sessions@;
        let ghost m = self@;
        let record = Session { token: copy_bytes(token), chat_id, created_at };
        self.sessions.push(record);
        self.bindings = Ghost(m.insert(chat_id, token@));
        proof {
            let nv = self.sessions@;
            let nm = self@;
            assert(nv.len() == v.len() + 1);
            assert(nv[v.len() as int].chat_id == chat_id);
            assert forall|j: int| 0 <= j < nv.len() implies nm.contains_key(#[trigger] nv[j].chat_id)
                && nm[nv[j].chat_id] == nv[j].token@ by {
                if j < v.len() {
                    assert(nv[j] == v[j]);
                }
            }
            assert forall|c: i64| nm.contains_key(c) implies exists|j: int|
                0 <= j < nv.len() && #[trigger] nv[j].chat_id == c by {
                if c == chat_id {
                    assert(nv[v.len() as int].chat_id == c);
                } else {
                    let k = choose|k: int| 0 <= k < v.len() && #[trigger] v[k].chat_id == c;
                    assert(nv[k] == v[k]);
                }
            }
            assert forall|a: i64, b: i64|
                nm.contains_key(a) && nm.contains_key(b) && #[trigger] nm[a] == #[trigger] nm[b] implies a == b by {
                if a != chat_id && b == chat_id {
                    assert(m0.contains_key(a) && m0[a] == token@);
                }
                if b != chat_id && a == chat_id {
                    assert(m0.contains_key(b) && m0[b] == token@);
                }
            }
            assert(nm =~= m0.insert(chat_id, token@));
        }
        Ok(())
    }
}

} // verus!
