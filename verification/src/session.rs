//! The session store: which tokens are live, and whose they are.
//!
//! The store is a plain owned value. Every operation that changes it takes
//! `&mut self`, so two changes never overlap; a server that shares one store
//! among its request handlers puts it behind a lock and holds the lock only
//! for the single call.

use vstd::prelude::*;
use vstd::hash_map::StringHashMap;
use crate::token::{is_session_token, new_token};

verus! {

/// How many tokens `create` draws before it gives up on finding one that is
/// not live.
pub const CREATE_ATTEMPTS: usize = 4;

/// The user that `token` stands for in `sessions`, if it is live.
pub open spec fn live_user(sessions: Map<Seq<char>, i64>, token: Seq<char>) -> Option<i64> {
    if sessions.contains_key(token) {
        Some(sessions[token])
    } else {
        None
    }
}

/// Whether some live session goes under a key that has the shape of a
/// token. Where none does, no draw of a token can hit a live one.
pub open spec fn has_live_token(sessions: Map<Seq<char>, i64>) -> bool {
    exists|token: Seq<char>| is_session_token(token) && #[trigger] sessions.contains_key(token)
}

/// Server-side table of live sessions, from token to user id.
pub struct SessionStore {
    sessions: StringHashMap<i64>,
}

impl View for SessionStore {
    type V = Map<Seq<char>, i64>;

    closed spec fn view(&self) -> Map<Seq<char>, i64> {
        self.sessions@
    }
}

impl SessionStore {
    /// An empty store: no session is live.
    pub fn new() -> (store: Self)
        ensures
            store@ == Map::<Seq<char>, i64>::empty(),
    {
        SessionStore { sessions: StringHashMap::new() }
    }

    /// Makes `token` a live session of `user_id`, unless it is live already.
    ///
    /// A live token is never handed to a second session: if `token` is live
    /// the store is left as it was and the answer is `false`.
    pub fn open_session(&mut self, token: String, user_id: i64) -> (opened: bool)
        ensures
            opened == !old(self)@.contains_key(token@),
            opened ==> final(self)@ == old(self)@.insert(token@, user_id),
            !opened ==> final(self)@ == old(self)@,
    {
        if self.sessions.contains_key(token.as_str()) {
            false
        } else {
            self.sessions.insert(token, user_id);
            true
        }
    }

    /// Starts a session for `user_id` under a newly drawn random token and
    /// returns the token.
    ///
    /// The token returned was not live before the call. Should every one of
    /// the `CREATE_ATTEMPTS` draws hit a live token, nothing is created and
    /// the answer is `None`. That takes a live session to hit: while no live
    /// session goes under a token-shaped key, as in a new store, the first
    /// draw is taken and a token always comes back.
    pub fn create(&mut self, user_id: i64) -> (issued: Option<String>)
        ensures
            match issued {
                Some(token) => {
                    &&& is_session_token(token@)
                    &&& !old(self)@.contains_key(token@)
                    &&& final(self)@ == old(self)@.insert(token@, user_id)
                },
                None => has_live_token(old(self)@) && final(self)@ == old(self)@,
            },
    {
        let mut attempt: usize = 0;
        while attempt < CREATE_ATTEMPTS
            invariant
                attempt <= CREATE_ATTEMPTS,
                self@ == old(self)@,
                attempt > 0 ==> has_live_token(old(self)@),
            decreases CREATE_ATTEMPTS - attempt,
        {
            let token = new_token();
            let issued = token.clone();
            if self.open_session(token, user_id) {
                return Some(issued);
            }
            assert(is_session_token(issued@) && old(self)@.contains_key(issued@));
            attempt += 1;
        }
        None
    }

    /// The user that `token` stands for, or `None` if `token` is not live.
    pub fn resolve(&self, token: &str) -> (user: Option<i64>)
        ensures
            user == live_user(self@, token@),
    {
        match self.sessions.get(token) {
            Some(user_id) => Some(*user_id),
            None => None,
        }
    }

    /// Ends the session named by `token`. A token that is not live is left
    /// alone: ending a session twice is the same as ending it once.
    pub fn invalidate(&mut self, token: &str)
        ensures
            final(self)@ == old(self)@.remove(token@),
    {
        self.sessions.remove(token);
    }
}

/// One change to the table of sessions.
pub enum SessionOp {
    /// A session of the user was started under the token.
    Create(Seq<char>, i64),
    /// The session under the token was ended.
    Invalidate(Seq<char>),
}

/// Whether `op` starts a session under `token`.
pub open spec fn creates(op: SessionOp, token: Seq<char>) -> bool {
    op matches SessionOp::Create(created, _) && created == token
}

/// Whether `op` ends the session under `token`.
pub open spec fn invalidates(op: SessionOp, token: Seq<char>) -> bool {
    op == SessionOp::Invalidate(token)
}

/// The table after one change.
pub open spec fn apply(sessions: Map<Seq<char>, i64>, op: SessionOp) -> Map<Seq<char>, i64> {
    match op {
        SessionOp::Create(token, user_id) => sessions.insert(token, user_id),
        SessionOp::Invalidate(token) => sessions.remove(token),
    }
}

/// The table after the changes `ops`, made in order.
pub open spec fn run(sessions: Map<Seq<char>, i64>, ops: Seq<SessionOp>) -> Map<Seq<char>, i64>
    decreases ops.len(),
{
    if ops.len() == 0 {
        sessions
    } else {
        apply(run(sessions, ops.drop_last()), ops.last())
    }
}

/// Whether the store can make the changes `ops` in order, starting from
/// `sessions`: each session is created under a token that is not live at
/// that moment.
pub open spec fn permitted(sessions: Map<Seq<char>, i64>, ops: Seq<SessionOp>) -> bool
    decreases ops.len(),
{
    ops.len() == 0 || {
        &&& permitted(sessions, ops.drop_last())
        &&& match ops.last() {
            SessionOp::Create(token, _) => !run(sessions, ops.drop_last()).contains_key(token),
            SessionOp::Invalidate(_) => true,
        }
    }
}

/// A live session stays live, and keeps its user, through any changes the
/// store can make that do not invalidate its token.
pub proof fn lemma_session_lives_until_invalidated(
    sessions: Map<Seq<char>, i64>,
    token: Seq<char>,
    user_id: i64,
    ops: Seq<SessionOp>,
)
    requires
        live_user(sessions, token) == Some(user_id),
        permitted(sessions, ops),
        forall|i: int| 0 <= i < ops.len() ==> !invalidates(#[trigger] ops[i], token),
    ensures
        live_user(run(sessions, ops), token) == Some(user_id),
    decreases ops.len(),
{
    if ops.len() > 0 {
        let before = ops.drop_last();
        assert forall|i: int| 0 <= i < before.len() implies !invalidates(
            #[trigger] before[i],
            token,
        ) by {
            assert(before[i] == ops[i]);
        }
        lemma_session_lives_until_invalidated(sessions, token, user_id, before);
        assert(ops.last() == ops[ops.len() - 1]);
    }
}

/// Once a session is invalidated its token resolves to nobody, and goes on
/// doing so until a new session is created under that very token.
pub proof fn lemma_invalidated_session_stays_absent(
    sessions: Map<Seq<char>, i64>,
    token: Seq<char>,
    ops: Seq<SessionOp>,
)
    requires
        forall|i: int| 0 <= i < ops.len() ==> !creates(#[trigger] ops[i], token),
    ensures
        live_user(apply(sessions, SessionOp::Invalidate(token)), token).is_none(),
        live_user(run(apply(sessions, SessionOp::Invalidate(token)), ops), token).is_none(),
    decreases ops.len(),
{
    if ops.len() > 0 {
        let before = ops.drop_last();
        assert forall|i: int| 0 <= i < before.len() implies !creates(#[trigger] before[i], token) by {
            assert(before[i] == ops[i]);
        }
        lemma_invalidated_session_stays_absent(sessions, token, before);
        assert(ops.last() == ops[ops.len() - 1]);
    }
}

/// Two sessions created one after the other, for the same user or not, have
/// different tokens; each resolves to its own user, and invalidating either
/// leaves the other live.
pub proof fn lemma_two_sessions_are_independent(
    sessions: Map<Seq<char>, i64>,
    first: Seq<char>,
    first_user: i64,
    second: Seq<char>,
    second_user: i64,
)
    requires
        permitted(
            sessions,
            seq![SessionOp::Create(first, first_user), SessionOp::Create(second, second_user)],
        ),
    ensures
        first != second,
        ({
            let both = sessions.insert(first, first_user).insert(second, second_user);
            &&& live_user(both, first) == Some(first_user)
            &&& live_user(both, second) == Some(second_user)
            &&& live_user(both.remove(first), first).is_none()
            &&& live_user(both.remove(first), second) == Some(second_user)
            &&& live_user(both.remove(second), second).is_none()
            &&& live_user(both.remove(second), first) == Some(first_user)
        }),
{
    let ops = seq![SessionOp::Create(first, first_user), SessionOp::Create(second, second_user)];
    let head = ops.drop_last();
    assert(head.len() == 1);
    assert(head.last() == SessionOp::Create(first, first_user));
    assert(head.drop_last().len() == 0);
    assert(permitted(sessions, head));
    assert(run(sessions, head.drop_last()) == sessions);
    assert(run(sessions, head) == sessions.insert(first, first_user));
    assert(ops.last() == SessionOp::Create(second, second_user));
}

/// After a run of creations alone, every token created is live.
proof fn lemma_created_tokens_are_live(sessions: Map<Seq<char>, i64>, ops: Seq<SessionOp>)
    requires
        forall|i: int| 0 <= i < ops.len() ==> #[trigger] ops[i] is Create,
    ensures
        forall|i: int| 0 <= i < ops.len() ==> run(sessions, ops).contains_key(#[trigger] ops[i]->Create_0),
        forall|token: Seq<char>| sessions.contains_key(token) ==> run(sessions, ops).contains_key(token),
    decreases ops.len(),
{
    if ops.len() > 0 {
        let before = ops.drop_last();
        assert forall|i: int| 0 <= i < before.len() implies #[trigger] before[i] is Create by {
            assert(before[i] == ops[i]);
        }
        lemma_created_tokens_are_live(sessions, before);
        assert(ops.last() == ops[ops.len() - 1]);
        assert forall|i: int| 0 <= i < ops.len() implies run(sessions, ops).contains_key(
            #[trigger] ops[i]->Create_0,
        ) by {
            if i < before.len() {
                assert(before[i] == ops[i]);
            }
        }
    }
}

/// However many sessions are created in a row, no token is issued twice and
/// none collides with a session that was live before.
pub proof fn lemma_created_tokens_are_distinct(sessions: Map<Seq<char>, i64>, ops: Seq<SessionOp>)
    requires
        permitted(sessions, ops),
        forall|i: int| 0 <= i < ops.len() ==> #[trigger] ops[i] is Create,
    ensures
        forall|i: int, j: int|
            0 <= i < j < ops.len() ==> #[trigger] ops[i]->Create_0 != #[trigger] ops[j]->Create_0,
        forall|i: int| 0 <= i < ops.len() ==> !sessions.contains_key(#[trigger] ops[i]->Create_0),
    decreases ops.len(),
{
    if ops.len() > 0 {
        let before = ops.drop_last();
        let last = ops.len() - 1;
        assert forall|i: int| 0 <= i < before.len() implies #[trigger] before[i] is Create by {
            assert(before[i] == ops[i]);
        }
        lemma_created_tokens_are_distinct(sessions, before);
        lemma_created_tokens_are_live(sessions, before);
        assert(ops.last() == ops[last]);
        assert(ops[last] is Create);
        assert forall|i: int, j: int| 0 <= i < j < ops.len() implies #[trigger] ops[i]->Create_0
            != #[trigger] ops[j]->Create_0 by {
            assert(before[i] == ops[i]);
            if j < last {
                assert(before[j] == ops[j]);
            }
        }
        assert forall|i: int| 0 <= i < ops.len() implies !sessions.contains_key(
            #[trigger] ops[i]->Create_0,
        ) by {
            if i < last {
                assert(before[i] == ops[i]);
            }
        }
    }
}

/// Through a run of creations no session is lost or overwritten: every
/// token created stands for the user it was created for, every session that
/// was live before stands as it did, and the table has grown by exactly one
/// session for each creation.
pub proof fn lemma_creations_keep_every_session(
    sessions: Map<Seq<char>, i64>,
    ops: Seq<SessionOp>,
)
    requires
        permitted(sessions, ops),
        forall|i: int| 0 <= i < ops.len() ==> #[trigger] ops[i] is Create,
    ensures
        forall|i: int|
            0 <= i < ops.len() ==> live_user(run(sessions, ops), (#[trigger] ops[i])->Create_0)
                == Some(ops[i]->Create_1),
        forall|token: Seq<char>| #[trigger]
            sessions.contains_key(token) ==> live_user(run(sessions, ops), token) == live_user(
                sessions,
                token,
            ),
        sessions.dom().finite() ==> run(sessions, ops).dom().finite() && run(
            sessions,
            ops,
        ).dom().len() == sessions.dom().len() + ops.len(),
    decreases ops.len(),
{
    if ops.len() > 0 {
        let before = ops.drop_last();
        let last = ops.len() - 1;
        assert forall|i: int| 0 <= i < before.len() implies #[trigger] before[i] is Create by {
            assert(before[i] == ops[i]);
        }
        lemma_creations_keep_every_session(sessions, before);
        assert(ops.last() == ops[last]);
        assert(ops[last] is Create);
        let earlier = run(sessions, before);
        let token = ops[last]->Create_0;
        assert(!earlier.contains_key(token));
        assert(run(sessions, ops) == earlier.insert(token, ops[last]->Create_1));
        assert forall|i: int| 0 <= i < ops.len() implies live_user(
            run(sessions, ops),
            (#[trigger] ops[i])->Create_0,
        ) == Some(ops[i]->Create_1) by {
            if i < last {
                assert(before[i] == ops[i]);
                assert(live_user(earlier, before[i]->Create_0) == Some(before[i]->Create_1));
            }
        }
        if sessions.dom().finite() {
            assert(run(sessions, ops).dom() =~= earlier.dom().insert(token));
        }
    }
}

} // verus!
