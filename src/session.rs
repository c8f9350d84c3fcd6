//! Bearer sessions: logging in with a password, checking a token on each
//! request (expiry and quota together), and logging out.

use vstd::prelude::*;
use crate::ambient::{fresh_token, now_secs};
use crate::crypto::{password_matches, verify_helper};
use crate::rate::{admits, after_request, count_of, ApiCounter};
use crate::store::EphemeralStore;

verus! {

/// How long a session lives after login, in seconds: one day.
pub const EXPIRE_SECS: i64 = 86400;

/// A logged-in user, reachable through its bearer token.
#[derive(Debug, Clone, PartialEq, Eq)]
pub struct Session {
    pub username: String,
    pub email: String,
    pub token: String,
    /// Login time, in seconds since the Unix epoch.
    pub login_time: i64,
    /// Requests counted for this user in the current window.
    pub api_count: u64,
}

/// Credentials presented at login.
#[derive(Debug, Clone)]
pub struct AuthInfo {
    pub username: String,
    pub password: String,
}

/// A user record as the user store keeps it.
#[derive(Debug, Clone)]
pub struct User {
    pub username: String,
    pub email: String,
    /// The stored password hash.
    pub permanent_token: String,
    pub learnt_course: Vec<String>,
}

/// Why a session operation failed.
#[derive(Debug, Clone, Copy, PartialEq, Eq, Structural)]
pub enum AuthError {
    WrongPassword,
    NotLogin,
    TooFrequent,
    Expired,
    /// A fault of the service itself, not of the request.
    Internal,
}

impl AuthError {
    /// The message shown for this error.
    pub open spec fn text(self) -> Seq<char> {
        match self {
            AuthError::WrongPassword => "wrong password"@,
            AuthError::NotLogin => "not login"@,
            AuthError::Expired => "expired"@,
            AuthError::TooFrequent => "too frequent"@,
            AuthError::Internal => "internal error"@,
        }
    }

    /// The message shown to the client.
    pub fn message(&self) -> (r: &'static str)
        ensures
            r@ == self.text(),
    {
        match self {
            AuthError::WrongPassword => "wrong password",
            AuthError::NotLogin => "not login",
            AuthError::Expired => "expired",
            AuthError::TooFrequent => "too frequent",
            AuthError::Internal => "internal error",
        }
    }
}

impl Session {
    /// A field-by-field copy.
    pub fn duplicate(&self) -> (r: Session)
        ensures
            r == *self,
    {
        Session {
            username: self.username.clone(),
            email: self.email.clone(),
            token: self.token.clone(),
            login_time: self.login_time,
            api_count: self.api_count,
        }
    }
}

/// Whether a session has outlived its lifetime at time `now`.
pub open spec fn expired(s: Session, now: i64) -> bool {
    now - s.login_time >= EXPIRE_SECS
}

/// The session as returned by a counted request.
pub open spec fn counted(s: Session, counts: Map<Seq<char>, u64>) -> Session {
    Session { api_count: (count_of(counts, s.email@) + 1) as u64, ..s }
}

/// What checking `token` at time `now` returns, and the sessions and the
/// counters after it.
pub open spec fn authenticate_step(
    live: Map<Seq<char>, Session>,
    counts: Map<Seq<char>, u64>,
    token: Seq<char>,
    now: i64,
) -> (Result<Session, AuthError>, Map<Seq<char>, Session>, Map<Seq<char>, u64>) {
    if !live.contains_key(token) {
        (Err(AuthError::NotLogin), live, counts)
    } else if expired(live[token], now) {
        (Err(AuthError::Expired), live.remove(token), counts)
    } else if !admits(counts, live[token].email@) {
        (Err(AuthError::TooFrequent), live, counts)
    } else {
        (
            Ok(counted(live[token], counts)),
            live.insert(token, counted(live[token], counts)),
            after_request(counts, live[token].email@),
        )
    }
}

/// The session that a login of `user` opens under `token` at time `now`.
pub open spec fn opened(user: User, token: String, now: i64, counts: Map<Seq<char>, u64>) -> Session {
    Session {
        username: user.username,
        email: user.email,
        token,
        login_time: now,
        api_count: count_of(counts, user.email@),
    }
}

/// The counters once `id` is tracked.
pub open spec fn with_counter(counts: Map<Seq<char>, u64>, id: Seq<char>) -> Map<Seq<char>, u64> {
    if counts.contains_key(id) {
        counts
    } else {
        counts.insert(id, 0u64)
    }
}

/// What opening a session for `user` under `token` at time `now` returns,
/// and the sessions and counters after it.
pub open spec fn open_step(
    live: Map<Seq<char>, Session>,
    counts: Map<Seq<char>, u64>,
    user: User,
    token: String,
    now: i64,
) -> (Result<Session, AuthError>, Map<Seq<char>, Session>, Map<Seq<char>, u64>) {
    if live.contains_key(token@) {
        (Err(AuthError::Internal), live, counts)
    } else {
        let s = opened(user, token, now, counts);
        (Ok(s), live.insert(token@, s), with_counter(counts, user.email@))
    }
}

/// Live sessions keyed by token, and the request counters of their users.
pub struct SessionPool {
    sessions: EphemeralStore<Session>,
    counter: ApiCounter,
}

impl SessionPool {
    /// Each session is stored under its own token, stamped with its login time.
    pub closed spec fn wf(&self) -> bool {
        &&& self.sessions.wf()
        &&& self.counter.wf()
        &&& forall|t: Seq<char>| #[trigger]
            self.sessions@.contains_key(t) ==> {
                &&& self.sessions@[t].0.token@ == t
                &&& self.sessions@[t].1 == self.sessions@[t].0.login_time
            }
    }

    /// The live sessions, keyed by token.
    pub closed spec fn live(&self) -> Map<Seq<char>, Session> {
        Map::new(|t: Seq<char>| self.sessions@.contains_key(t), |t: Seq<char>| self.sessions@[t].0)
    }

    /// The request counters, keyed by e-mail address.
    pub closed spec fn counts(&self) -> Map<Seq<char>, u64> {
        self.counter@
    }

    /// Every live session is stored under its own token.
    pub proof fn lemma_keyed_by_token(&self)
        requires
            self.wf(),
        ensures
            forall|t: Seq<char>| #[trigger]
                self.live().contains_key(t) ==> self.live()[t].token@ == t,
    {
    }

    /// No session and no counter.
    pub fn new() -> (r: Self)
        ensures
            r.wf(),
            r.live() == Map::<Seq<char>, Session>::empty(),
            r.counts() == Map::<Seq<char>, u64>::empty(),
    {
        let r = SessionPool { sessions: EphemeralStore::new(), counter: ApiCounter::new() };
        assert(r.live() =~= Map::<Seq<char>, Session>::empty());
        r
    }

    /// Puts every request counter back to zero.
    pub fn reset_counters(&mut self)
        requires
            old(self).wf(),
        ensures
            final(self).wf(),
            final(self).live() == old(self).live(),
            final(self).counts() == crate::rate::after_reset(old(self).counts()),
    {
        self.counter.reset();
    }
}

/// Checks `token` at time `now`. An unknown token fails `NotLogin`; an
/// expired session is removed and fails `Expired`; a user over quota fails
/// `TooFrequent` and is not counted; otherwise the request is counted and
/// the session, with the new count, is returned.
pub fn get_session_at(pool: &mut SessionPool, token: &str, now: i64) -> (r: Result<Session, AuthError>)
    requires
        old(pool).wf(),
    ensures
        final(pool).wf(),
        (r, final(pool).live(), final(pool).counts()) == authenticate_step(
            old(pool).live(),
            old(pool).counts(),
            token@,
            now,
        ),
        r is Ok ==> r->Ok_0.token@ == token@,
{
    let key = token.to_owned();
    let found = match pool.sessions.get(&key) {
        Some((s, _)) => Some(s.duplicate()),
        None => None,
    };
    match found {
        None => Err(AuthError::NotLogin),
        Some(s) => {
            if (now as i128) - (s.login_time as i128) >= EXPIRE_SECS as i128 {
                pool.sessions.remove(&key);
                assert(pool.live() =~= old(pool).live().remove(token@));
                Err(AuthError::Expired)
            } else if pool.counter.check_and_increment(&s.email, now) {
                let c = pool.counter.count(&s.email);
                let updated = Session { api_count: c, ..s };
                pool.sessions.set_value(&key, updated.duplicate());
                assert(pool.live() =~= old(pool).live().insert(token@, updated));
                Ok(updated)
            } else {
                Err(AuthError::TooFrequent)
            }
        },
    }
}

/// Checks `token` now; see `get_session_at`, which this is for some time.
pub fn get_session(pool: &mut SessionPool, token: &str) -> (r: Result<Session, AuthError>)
    requires
        old(pool).wf(),
    ensures
        final(pool).wf(),
        exists|now: i64|
            (r, final(pool).live(), final(pool).counts()) == authenticate_step(
                old(pool).live(),
                old(pool).counts(),
                token@,
                now,
            ),
        r is Ok ==> r->Ok_0.token@ == token@,
{
    let now = now_secs();
    get_session_at(pool, token, now)
}

/// Opens a session for `user` under `token` at time `now`. The user's
/// counter starts being kept if it was not, and the session carries its
/// current count. A token that is already live is refused as an internal
/// fault and nothing changes.
pub fn open_session(pool: &mut SessionPool, user: &User, token: String, now: i64) -> (r: Result<
    Session,
    AuthError,
>)
    requires
        old(pool).wf(),
    ensures
        final(pool).wf(),
        (r, final(pool).live(), final(pool).counts()) == open_step(
            old(pool).live(),
            old(pool).counts(),
            *user,
            token,
            now,
        ),
{
    if pool.sessions.contains(&token) {
        return Err(AuthError::Internal);
    }
    pool.counter.track(&user.email, now);
    let count = pool.counter.count(&user.email);
    let session = Session {
        username: user.username.clone(),
        email: user.email.clone(),
        token: token.clone(),
        login_time: now,
        api_count: count,
    };
    pool.sessions.put(token, session.duplicate(), now);
    assert(pool.live() =~= old(pool).live().insert(session.token@, session));
    Ok(session)
}

/// Permission to open a session: a fresh token and the login time.
pub struct LoginGrant {
    pub token: String,
    pub login_time: i64,
}

/// Checks a password against the user record found for `auth.username`
/// (`None` where there is none), touching no session. A missing user and a
/// wrong password both fail `WrongPassword`; otherwise a fresh random token
/// is drawn and the current time read.
pub fn grant_login(user: Option<&User>, auth: &AuthInfo) -> (r: Result<LoginGrant, AuthError>)
    ensures
        (user is None || !password_matches(user->Some_0.permanent_token@, auth.password@)) ==> r
            is Err,
        (user is Some && password_matches(user->Some_0.permanent_token@, auth.password@)) ==> r
            is Ok,
        r is Err ==> r->Err_0 == AuthError::WrongPassword,
        r is Ok ==> r->Ok_0.token@.len() == 36,
{
    match user {
        None => Err(AuthError::WrongPassword),
        Some(u) => {
            if !verify_helper(u.permanent_token.as_str(), auth.password.as_str()) {
                return Err(AuthError::WrongPassword);
            }
            let token = fresh_token();
            let login_time = now_secs();
            Ok(LoginGrant { token, login_time })
        },
    }
}

/// Logs in: `grant_login`, then `open_session` with the grant. Should the
/// token be live already, the login fails `Internal`.
pub fn post_session(pool: &mut SessionPool, user: Option<&User>, auth: &AuthInfo) -> (r: Result<
    Session,
    AuthError,
>)
    requires
        old(pool).wf(),
    ensures
        final(pool).wf(),
        (user is None || !password_matches(user->Some_0.permanent_token@, auth.password@)) ==> {
            &&& r == Err::<Session, AuthError>(AuthError::WrongPassword)
            &&& final(pool).live() == old(pool).live()
            &&& final(pool).counts() == old(pool).counts()
        },
        (user is Some && password_matches(user->Some_0.permanent_token@, auth.password@)) ==> exists|
            token: String,
            now: i64,
        |
            {
                &&& token@.len() == 36
                &&& (r, final(pool).live(), final(pool).counts()) == open_step(
                    old(pool).live(),
                    old(pool).counts(),
                    *user->Some_0,
                    token,
                    now,
                )
            },
{
    match grant_login(user, auth) {
        Err(e) => Err(e),
        Ok(grant) => match user {
            Some(u) => {
                let ghost (token, now) = (grant.token, grant.login_time);
                let r = open_session(pool, u, grant.token, grant.login_time);
                assert((r, pool.live(), pool.counts()) == open_step(
                    old(pool).live(),
                    old(pool).counts(),
                    *u,
                    token,
                    now,
                ));
                r
            },
            None => Err(AuthError::WrongPassword),
        },
    }
}

/// Logs out: removes the session of `token` and returns it, or fails
/// `NotLogin` where there is none. Counters are left as they are.
pub fn delete_session(pool: &mut SessionPool, token: &str) -> (r: Result<Session, AuthError>)
    requires
        old(pool).wf(),
    ensures
        final(pool).wf(),
        final(pool).live() == old(pool).live().remove(token@),
        final(pool).counts() == old(pool).counts(),
        old(pool).live().contains_key(token@) ==> r == Ok::<Session, AuthError>(
            old(pool).live()[token@],
        ),
        !old(pool).live().contains_key(token@) ==> r == Err::<Session, AuthError>(
            AuthError::NotLogin,
        ),
        r is Ok ==> r->Ok_0.token@ == token@,
{
    let key = token.to_owned();
    let removed = pool.sessions.remove(&key);
    assert(pool.live() =~= old(pool).live().remove(token@));
    match removed {
        Some(s) => Ok(s),
        None => Err(AuthError::NotLogin),
    }
}

/// A token that is not among the live sessions, as every token is that no
/// login returned, fails `NotLogin` at any time and changes nothing.
pub proof fn lemma_unknown_token(
    live: Map<Seq<char>, Session>,
    counts: Map<Seq<char>, u64>,
    token: Seq<char>,
    now: i64,
)
    requires
        !live.contains_key(token),
    ensures
        authenticate_step(live, counts, token, now) == (
            Err::<Session, AuthError>(AuthError::NotLogin),
            live,
            counts,
        ),
{
}

/// A live session is accepted while less than the lifetime has passed since
/// login (and its user is within quota); from the lifetime on it fails
/// `Expired` and is removed.
pub proof fn lemma_session_lifetime(
    live: Map<Seq<char>, Session>,
    counts: Map<Seq<char>, u64>,
    token: Seq<char>,
    now: i64,
)
    requires
        live.contains_key(token),
    ensures
        now - live[token].login_time < EXPIRE_SECS && admits(counts, live[token].email@)
            ==> authenticate_step(live, counts, token, now).0 == Ok::<Session, AuthError>(
            counted(live[token], counts),
        ),
        now - live[token].login_time >= EXPIRE_SECS ==> {
            &&& authenticate_step(live, counts, token, now).0 == Err::<Session, AuthError>(
                AuthError::Expired,
            )
            &&& authenticate_step(live, counts, token, now).1 == live.remove(token)
            &&& !authenticate_step(live, counts, token, now).1.contains_key(token)
        },
{
}

/// Two successful logins in a row, of one user or of two, get different
/// tokens. Afterwards each token holds exactly its own session, and each is
/// accepted at any time before it expires while its user is within quota.
pub proof fn lemma_two_logins(
    live: Map<Seq<char>, Session>,
    counts: Map<Seq<char>, u64>,
    user1: User,
    token1: String,
    now1: i64,
    user2: User,
    token2: String,
    now2: i64,
    now: i64,
)
    requires
        open_step(live, counts, user1, token1, now1).0 is Ok,
        open_step(
            open_step(live, counts, user1, token1, now1).1,
            open_step(live, counts, user1, token1, now1).2,
            user2,
            token2,
            now2,
        ).0 is Ok,
    ensures
        ({
            let first = open_step(live, counts, user1, token1, now1);
            let second = open_step(first.1, first.2, user2, token2, now2);
            let s1 = first.0->Ok_0;
            let s2 = second.0->Ok_0;
            &&& token1@ != token2@
            &&& s1.token == token1 && s2.token == token2
            &&& second.1.contains_key(token1@) && second.1[token1@] == s1
            &&& second.1.contains_key(token2@) && second.1[token2@] == s2
            &&& (!expired(s1, now) && admits(second.2, s1.email@)) ==> authenticate_step(
                second.1,
                second.2,
                token1@,
                now,
            ).0 is Ok
            &&& (!expired(s2, now) && admits(second.2, s2.email@)) ==> authenticate_step(
                second.1,
                second.2,
                token2@,
                now,
            ).0 is Ok
        }),
{
}

} // verus!
