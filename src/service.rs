use vstd::prelude::*;

use hyper::header::HeaderValue;
use hyper::HeaderMap;

use crate::error::ErrorCode;
use crate::headers::{first_values, header_text, is_lower_header_name, read_header};
use crate::sessions::SessionStore;
use crate::token::{is_uuid_text, new_token};
use crate::users::{credential_check, UserStore};

verus! {

/// The user store and the session store that the authentication operations work on.
pub struct Server {
    users: UserStore,
    sessions: SessionStore,
    issued: Ghost<Set<Seq<char>>>,
}

impl Server {
    /// Both stores are well formed and every live token is one that was issued.
    pub closed spec fn wf(&self) -> bool {
        &&& self.users.wf()
        &&& self.sessions.wf()
        &&& self.sessions@.dom().subset_of(self.issued@)
    }

    /// Username to (password, identity).
    pub closed spec fn users(&self) -> Map<Seq<char>, (Seq<char>, i64)> {
        self.users@
    }

    /// Number of users known to the user store.
    pub closed spec fn user_count(&self) -> nat {
        self.users.count()
    }

    /// Live token to identity.
    pub closed spec fn sessions(&self) -> Map<Seq<char>, i64> {
        self.sessions@
    }

    /// Every token that a session was ever opened with.
    pub closed spec fn issued(&self) -> Set<Seq<char>> {
        self.issued@
    }

    /// A server with no users and no sessions.
    pub fn new() -> (r: Self)
        ensures
            r.wf(),
            r.users() == Map::<Seq<char>, (Seq<char>, i64)>::empty(),
            r.user_count() == 0,
            r.sessions() == Map::<Seq<char>, i64>::empty(),
            r.issued() == Set::<Seq<char>>::empty(),
    {
        Server { users: UserStore::new(), sessions: SessionStore::new(), issued: Ghost(Set::empty()) }
    }
}

/// What resolving `token` against the live sessions gives.
pub open spec fn resolve(sessions: Map<Seq<char>, i64>, token: Seq<char>) -> Result<i64, ErrorCode> {
    if sessions.contains_key(token) {
        Ok(sessions[token])
    } else {
        Err(ErrorCode::NotAuthenticated)
    }
}

/// The token that a request carries: the text of its `authorization` header.
pub open spec fn bearer_token(headers: HeaderMap<HeaderValue>) -> Option<Seq<char>> {
    header_text(headers, "authorization"@)
}

/// What authenticating a request against the live sessions gives: the identity of
/// its bearer token, `NotAuthenticated` when it carries none or an unknown one.
pub open spec fn authenticate(sessions: Map<Seq<char>, i64>, headers: HeaderMap<HeaderValue>) -> Result<i64, ErrorCode> {
    match bearer_token(headers) {
        Some(t) => resolve(sessions, t),
        None => Err(ErrorCode::NotAuthenticated),
    }
}

/// `after` is `before` with a session for `token`, bound to `user_id`, newly opened:
/// the token was not live before, and the user store is untouched.
pub open spec fn session_opened(before: Server, after: Server, user_id: i64, token: Seq<char>) -> bool {
    &&& !before.sessions().contains_key(token)
    &&& after.sessions() == before.sessions().insert(token, user_id)
    &&& after.issued() == before.issued().insert(token)
    &&& after.users() == before.users()
    &&& after.user_count() == before.user_count()
}

/// `after` is `before` with nothing changed.
pub open spec fn unchanged(before: Server, after: Server) -> bool {
    &&& after.sessions() == before.sessions()
    &&& after.issued() == before.issued()
    &&& after.users() == before.users()
    &&& after.user_count() == before.user_count()
}

/// The session token of a request, taken from its `authorization` header.
pub fn get_session(headers: &HeaderMap<HeaderValue>) -> (r: Result<String, ErrorCode>)
    ensures
        match bearer_token(*headers) {
            Some(t) => r is Ok && r->Ok_0@ == t,
            None => r == Err::<String, ErrorCode>(ErrorCode::NotAuthenticated),
        },
{
    let name = "authorization";
    proof {
        reveal_strlit("authorization");
        assert(is_lower_header_name(name@));
    }
    match read_header(headers, name) {
        Some(s) => Ok(s.to_owned()),
        None => Err(ErrorCode::NotAuthenticated),
    }
}

/// Registers a user with the user store. The store refuses an empty or already known
/// username, and a new user once identities are exhausted; sessions are untouched.
pub fn add_user(server: &mut Server, username: String, password: String) -> (r: Result<(), ErrorCode>)
    requires
        old(server).wf(),
    ensures
        final(server).wf(),
        r is Ok <==> (username@.len() > 0 && !old(server).users().contains_key(username@)
            && old(server).user_count() < i64::MAX),
        r is Ok ==> final(server).users() == old(server).users().insert(
            username@,
            (password@, (old(server).user_count() + 1) as i64),
        ) && final(server).user_count() == old(server).user_count() + 1,
        r is Err ==> r == Err::<(), ErrorCode>(ErrorCode::DataStoreError) && final(server).users()
            == old(server).users() && final(server).user_count() == old(server).user_count(),
        final(server).sessions() == old(server).sessions(),
        final(server).issued() == old(server).issued(),
{
    server.users.add_user(&username, &password)
}

/// Opens a session for `user_id` under `token`, unless that token is already live.
pub fn issue_session(server: &mut Server, user_id: i64, token: String) -> (r: Result<String, ErrorCode>)
    requires
        old(server).wf(),
    ensures
        final(server).wf(),
        r is Ok <==> !old(server).sessions().contains_key(token@),
        r matches Ok(t) ==> t@ == token@ && session_opened(*old(server), *final(server), user_id, t@),
        r is Err ==> r == Err::<String, ErrorCode>(ErrorCode::DataStoreError) && unchanged(
            *old(server),
            *final(server),
        ),
{
    if server.sessions.get(&token).is_some() {
        return Err(ErrorCode::DataStoreError);
    }
    match server.sessions.save(&token, user_id) {
        Ok(()) => {
            proof {
                server.issued@ = server.issued@.insert(token@);
            }
            Ok(token)
        },
        Err(e) => Err(e),
    }
}

/// Logs a user in: checks the credentials, then mints a fresh random token and
/// stores it as a session bound to the user's identity. The login fails after a good
/// credential check only when the new token is already live, which needs a live
/// token of the same form.
pub fn create_session(server: &mut Server, username: String, password: String) -> (r: Result<String, ErrorCode>)
    requires
        old(server).wf(),
    ensures
        final(server).wf(),
        username@.len() == 0 ==> r == Err::<String, ErrorCode>(ErrorCode::NotAuthenticated),
        (credential_check(old(server).users(), username@, password@) is Ok && (forall|t: Seq<char>|
            #[trigger] old(server).sessions().contains_key(t) ==> !is_uuid_text(t))) ==> r is Ok,
        match credential_check(old(server).users(), username@, password@) {
            Err(e) => r == Err::<String, ErrorCode>(e) && unchanged(*old(server), *final(server)),
            Ok(id) => match r {
                Ok(t) => is_uuid_text(t@) && session_opened(*old(server), *final(server), id, t@),
                Err(e) => e == ErrorCode::DataStoreError && unchanged(*old(server), *final(server))
                    && exists|t: Seq<char>|
                    #[trigger] old(server).sessions().contains_key(t) && is_uuid_text(t),
            },
        },
{
    proof {
        server.users.lemma_no_empty_username();
        if username@.len() == 0 {
            assert(username@ =~= Seq::<char>::empty());
        }
    }
    let user_id = match server.users.match_password(&username, &password) {
        Ok(id) => id,
        Err(e) => return Err(e),
    };
    let token = new_token();
    issue_session(server, user_id, token)
}

/// The identity that a live session token belongs to.
pub fn from_session_id(server: &Server, session_id: String) -> (r: Result<i64, ErrorCode>)
    requires
        server.wf(),
    ensures
        r == resolve(server.sessions(), session_id@),
{
    match server.sessions.get(&session_id) {
        Some(user_id) => Ok(user_id),
        None => Err(ErrorCode::NotAuthenticated),
    }
}

/// The identity that the session token in a request's `authorization` header belongs
/// to. A missing or unreadable header is `NotAuthenticated`, as is an unknown token.
pub fn from_header(server: &Server, headers: &HeaderMap<HeaderValue>) -> (r: Result<i64, ErrorCode>)
    requires
        server.wf(),
    ensures
        r == authenticate(server.sessions(), *headers),
{
    match get_session(headers) {
        Ok(sid) => from_session_id(server, sid),
        Err(e) => Err(e),
    }
}

/// Logs a session out. Removing a token that is not live is no error.
pub fn remove_session(server: &mut Server, session_id: String) -> (r: Result<(), ErrorCode>)
    requires
        old(server).wf(),
    ensures
        final(server).wf(),
        r == Ok::<(), ErrorCode>(()),
        final(server).sessions() == old(server).sessions().remove(session_id@),
        final(server).issued() == old(server).issued(),
        final(server).users() == old(server).users(),
        final(server).user_count() == old(server).user_count(),
{
    server.sessions.del(&session_id);
    Ok(())
}

/// A session opened for credentials that the user store recognises resolves to the
/// identity that the store gives for them.
pub proof fn lemma_login_resolves(
    before: Server,
    after: Server,
    username: Seq<char>,
    password: Seq<char>,
    token: Seq<char>,
)
    requires
        credential_check(before.users(), username, password) is Ok,
        session_opened(before, after, credential_check(before.users(), username, password)->Ok_0, token),
    ensures
        resolve(after.sessions(), token) == credential_check(after.users(), username, password),
        resolve(after.sessions(), token) is Ok,
{
}

/// A token that no session was ever opened with resolves to nothing.
pub proof fn lemma_unissued_token_rejected(server: Server, token: Seq<char>)
    requires
        server.wf(),
        !server.issued().contains(token),
    ensures
        resolve(server.sessions(), token) == Err::<i64, ErrorCode>(ErrorCode::NotAuthenticated),
{
}

/// Removing a session a second time changes nothing more than the first removal did.
pub proof fn lemma_remove_twice(sessions: Map<Seq<char>, i64>, token: Seq<char>)
    ensures
        sessions.remove(token).remove(token) == sessions.remove(token),
{
    assert(sessions.remove(token).remove(token) =~= sessions.remove(token));
}

/// Once its session is removed, a token resolves to nothing.
pub proof fn lemma_removed_token_rejected(sessions: Map<Seq<char>, i64>, token: Seq<char>)
    ensures
        resolve(sessions.remove(token), token) == Err::<i64, ErrorCode>(ErrorCode::NotAuthenticated),
{
}

/// Two logins in a row with the same credentials give two different tokens, and
/// both resolve to the user's identity.
pub proof fn lemma_two_logins_distinct(
    s0: Server,
    s1: Server,
    s2: Server,
    username: Seq<char>,
    password: Seq<char>,
    t1: Seq<char>,
    t2: Seq<char>,
)
    requires
        credential_check(s0.users(), username, password) is Ok,
        session_opened(s0, s1, credential_check(s0.users(), username, password)->Ok_0, t1),
        session_opened(s1, s2, credential_check(s1.users(), username, password)->Ok_0, t2),
    ensures
        t1 != t2,
        resolve(s2.sessions(), t1) == credential_check(s0.users(), username, password),
        resolve(s2.sessions(), t2) == credential_check(s0.users(), username, password),
{
}

/// A request without an `authorization` header is not authenticated.
pub proof fn lemma_missing_header_rejected(sessions: Map<Seq<char>, i64>, headers: HeaderMap<HeaderValue>)
    requires
        !first_values(headers).contains_key("authorization"@),
    ensures
        authenticate(sessions, headers) == Err::<i64, ErrorCode>(ErrorCode::NotAuthenticated),
{
}

/// A request whose `authorization` header holds a live token authenticates as that
/// token resolves, to the identity it was issued to.
pub proof fn lemma_header_matches_session_id(
    sessions: Map<Seq<char>, i64>,
    headers: HeaderMap<HeaderValue>,
    token: Seq<char>,
)
    requires
        bearer_token(headers) == Some(token),
        sessions.contains_key(token),
    ensures
        authenticate(sessions, headers) == resolve(sessions, token),
        authenticate(sessions, headers) == Ok::<i64, ErrorCode>(sessions[token]),
{
}

/// One call that opens no session with `token`: the sessions stay as they were, lose
/// one token, or gain a session under another token.
pub open spec fn opens_no_session_with(before: Server, after: Server, token: Seq<char>) -> bool {
    ||| after.sessions() == before.sessions()
    ||| exists|t: Seq<char>| after.sessions() == before.sessions().remove(t)
    ||| exists|id: i64, t: Seq<char>| t != token && #[trigger] session_opened(before, after, id, t)
}

/// Revocation lasts: once a token is not live, it resolves to nothing in every later
/// state, over any run of calls that open no session with that token again.
pub proof fn lemma_revocation_lasts(states: Seq<Server>, token: Seq<char>, n: int)
    requires
        0 <= n < states.len(),
        !states[0].sessions().contains_key(token),
        forall|i: int|
            0 <= i < states.len() - 1 ==> opens_no_session_with(
                #[trigger] states[i],
                states[i + 1],
                token,
            ),
    ensures
        resolve(states[n].sessions(), token) == Err::<i64, ErrorCode>(ErrorCode::NotAuthenticated),
    decreases n,
{
    if n > 0 {
        lemma_revocation_lasts(states, token, n - 1);
        let before = states[n - 1];
        let after = states[n];
        assert(opens_no_session_with(before, after, token));
        if after.sessions() != before.sessions() {
            if exists|t: Seq<char>| after.sessions() == before.sessions().remove(t) {
                let t = choose|t: Seq<char>| after.sessions() == before.sessions().remove(t);
            } else {
                let (id, t) = choose|id: i64, t: Seq<char>|
                    t != token && #[trigger] session_opened(before, after, id, t);
            }
        }
    }
}

} // verus!
