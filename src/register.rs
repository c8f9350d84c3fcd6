//! Registration: which e-mail addresses may register, and the one-time codes
//! sent to them, with a retry cooldown and a limited lifetime.

use vstd::prelude::*;
use crate::ambient::{fresh_token, now_secs};
use crate::crypto::{bcrypt_verdict, hash_password, password_matches};
use crate::store::EphemeralStore;
use crate::session::User;

verus! {

/// How long a code stays valid after it was issued, in seconds.
pub const CODE_EXPIRE_SECS: i64 = 1800;

/// How long an address must wait before it can ask for a new code, in seconds.
pub const RETRY_SECS: i64 = 60;

/// The page a code is sent to; the code follows this text.
pub const SIGNUP_URL: &'static str = "https://sustechflow.top/signup?vcode=";

/// Why a registration step failed.
#[derive(Debug, Clone, Copy, PartialEq, Eq, Structural)]
pub enum RegisterError {
    NotSUSTech,
    NotStudent,
    CodeInvalid,
    TooMany,
    /// A fault of the service itself, not of the request.
    Internal,
}

impl RegisterError {
    /// The message shown for this error.
    pub open spec fn text(self) -> Seq<char> {
        match self {
            RegisterError::NotSUSTech => "not SUSTech email"@,
            RegisterError::NotStudent =>
                "not student if you want to register please contact us"@,
            RegisterError::TooMany => "too many request for link, please wait 60 seconds"@,
            RegisterError::CodeInvalid => "invalid verification code"@,
            RegisterError::Internal => "internal error"@,
        }
    }

    /// The message shown to the client.
    pub fn message(&self) -> (r: &'static str)
        ensures
            r@ == self.text(),
    {
        match self {
            RegisterError::NotSUSTech => "not SUSTech email",
            RegisterError::NotStudent => "not student if you want to register please contact us",
            RegisterError::TooMany => "too many request for link, please wait 60 seconds",
            RegisterError::CodeInvalid => "invalid verification code",
            RegisterError::Internal => "internal error",
        }
    }
}

/// A code issued to an address.
#[derive(Debug, Clone)]
pub struct EmailCodeEntry {
    pub email: String,
    pub code: String,
}

/// What a new user submits to register.
#[derive(Debug, Clone)]
pub struct RegisterInfo {
    pub username: String,
    pub password: String,
    pub email: String,
    pub vcode: String,
}

pub open spec fn is_digit(c: char) -> bool {
    '0' <= c && c <= '9'
}

/// The address starts with an eight-digit student number.
pub open spec fn has_student_number(s: Seq<char>) -> bool {
    s.len() >= 8 && forall|i: int| 0 <= i < 8 ==> is_digit(#[trigger] s[i])
}

/// One of the university's mail domains, with its `@`.
pub open spec fn is_campus_domain(d: Seq<char>) -> bool {
    ||| d == "@mail.sustech.edu.cn"@
    ||| d == "@sustech.edu.cn"@
    ||| d == "@mail.sustc.edu.cn"@
    ||| d == "@sustc.edu.cn"@
}

/// Whether an address may register, and if not, why.
pub open spec fn address_check(s: Seq<char>) -> Result<(), RegisterError> {
    if !has_student_number(s) {
        Err(RegisterError::NotStudent)
    } else if !is_campus_domain(s.subrange(8, s.len() as int)) {
        Err(RegisterError::NotSUSTech)
    } else {
        Ok(())
    }
}

/// Accepts an address made of an eight-digit student number followed by
/// one of the university's mail domains. A shorter address, or one whose
/// first eight characters are not all digits, fails `NotStudent`; any other
/// remainder fails `NotSUSTech`.
pub fn validate_email(email: &str) -> (r: Result<&str, RegisterError>)
    ensures
        match address_check(email@) {
            Ok(_) => r == Ok::<&str, RegisterError>(email),
            Err(e) => r == Err::<&str, RegisterError>(e),
        },
{
    let n = email.unicode_len();
    if n < 8 {
        return Err(RegisterError::NotStudent);
    }
    let mut i: usize = 0;
    while i < 8
        invariant
            n == email@.len(),
            8 <= n,
            i <= 8,
            forall|j: int| 0 <= j < i ==> is_digit(#[trigger] email@[j]),
        decreases 8 - i,
    {
        let c = email.get_char(i);
        if !('0' <= c && c <= '9') {
            return Err(RegisterError::NotStudent);
        }
        i = i + 1;
    }
    let domain = email.substring_char(8, n).to_owned();
    if domain == "@mail.sustech.edu.cn".to_owned() || domain == "@sustech.edu.cn".to_owned()
        || domain == "@mail.sustc.edu.cn".to_owned() || domain == "@sustc.edu.cn".to_owned() {
        Ok(email)
    } else {
        Err(RegisterError::NotSUSTech)
    }
}

impl EmailCodeEntry {
    /// A field-by-field copy.
    pub fn duplicate(&self) -> (r: EmailCodeEntry)
        ensures
            r == *self,
    {
        EmailCodeEntry { email: self.email.clone(), code: self.code.clone() }
    }
}

/// What checking `code` for `email` at time `now` answers, and the codes
/// after it: the code must be the one on record and younger than its
/// lifetime; a record past its lifetime is dropped.
pub open spec fn code_step(
    m: Map<Seq<char>, (Seq<char>, i64)>,
    email: Seq<char>,
    code: Seq<char>,
    now: i64,
) -> (Result<(), RegisterError>, Map<Seq<char>, (Seq<char>, i64)>) {
    if !m.contains_key(email) {
        (Err(RegisterError::CodeInvalid), m)
    } else if now - m[email].1 >= CODE_EXPIRE_SECS {
        (Err(RegisterError::CodeInvalid), m.remove(email))
    } else if code == m[email].0 {
        (Ok(()), m)
    } else {
        (Err(RegisterError::CodeInvalid), m)
    }
}

/// Whether `email` was issued a code less than the cooldown before `now`.
pub open spec fn cooling_down(m: Map<Seq<char>, (Seq<char>, i64)>, email: Seq<char>, now: i64) -> bool {
    m.contains_key(email) && now - m[email].1 < RETRY_SECS
}

/// What asking for a code for `email` at time `now` answers, and the codes
/// after it, where `code` is the fresh code drawn for it.
pub open spec fn request_step(
    m: Map<Seq<char>, (Seq<char>, i64)>,
    email: Seq<char>,
    now: i64,
    code: Seq<char>,
) -> (Result<(), RegisterError>, Map<Seq<char>, (Seq<char>, i64)>) {
    match address_check(email) {
        Err(e) => (Err(e), m),
        Ok(_) => if cooling_down(m, email, now) {
            (Err(RegisterError::TooMany), m)
        } else {
            (Ok(()), m.insert(email, (code, now)))
        },
    }
}

/// The outcome of a request with the issued entry left out.
pub open spec fn outcome<T>(r: Result<T, RegisterError>) -> Result<(), RegisterError> {
    match r {
        Ok(_) => Ok(()),
        Err(e) => Err(e),
    }
}

/// The latest code issued to each address, with the time it was issued.
pub struct EmailCodeDict {
    codes: EphemeralStore<EmailCodeEntry>,
}

impl View for EmailCodeDict {
    type V = Map<Seq<char>, (Seq<char>, i64)>;

    closed spec fn view(&self) -> Map<Seq<char>, (Seq<char>, i64)> {
        Map::new(
            |k: Seq<char>| self.codes@.contains_key(k),
            |k: Seq<char>| (self.codes@[k].0.code@, self.codes@[k].1),
        )
    }
}

impl EmailCodeDict {
    pub closed spec fn wf(&self) -> bool {
        self.codes.wf()
    }

    /// No code issued.
    pub fn new() -> (r: Self)
        ensures
            r.wf(),
            r@ == Map::<Seq<char>, (Seq<char>, i64)>::empty(),
    {
        let r = EmailCodeDict { codes: EphemeralStore::new() };
        assert(r@ =~= Map::<Seq<char>, (Seq<char>, i64)>::empty());
        r
    }
}

/// Checks `code` for `email` at time `now`. It passes when it is the code
/// last issued to the address and less than the lifetime old; a passed
/// code stays valid until it expires. A record found expired is dropped.
/// Every failure is `CodeInvalid`.
pub fn validate_code_at(dict: &mut EmailCodeDict, email: &str, code: &str, now: i64) -> (r: Result<(), RegisterError>)
    requires
        old(dict).wf(),
    ensures
        final(dict).wf(),
        (r, final(dict)@) == code_step(old(dict)@, email@, code@, now),
{
    let key = email.to_owned();
    let given = code.to_owned();
    let (stale, matches) = match dict.codes.get(&key) {
        None => {
            return Err(RegisterError::CodeInvalid);
        },
        Some((e, t)) => ((now as i128) - (t as i128) >= CODE_EXPIRE_SECS as i128, given == e.code),
    };
    if stale {
        dict.codes.remove(&key);
        assert(dict@ =~= old(dict)@.remove(email@));
        Err(RegisterError::CodeInvalid)
    } else if matches {
        Ok(())
    } else {
        Err(RegisterError::CodeInvalid)
    }
}

/// Checks `code` for `email` now; see `validate_code_at`, which this is
/// for some time.
pub fn validate_code(dict: &mut EmailCodeDict, email: &str, code: &str) -> (r: Result<(), RegisterError>)
    requires
        old(dict).wf(),
    ensures
        final(dict).wf(),
        exists|now: i64| (r, final(dict)@) == code_step(old(dict)@, email@, code@, now),
{
    let now = now_secs();
    validate_code_at(dict, email, code, now)
}

/// Issues `code` to `email` at time `now`. The address must pass
/// `validate_email`, and must not have been issued a code less than the
/// cooldown ago (else `TooMany`). The new code replaces any earlier one.
pub fn request_code_at(dict: &mut EmailCodeDict, email: &str, now: i64, code: String) -> (r: Result<
    EmailCodeEntry,
    RegisterError,
>)
    requires
        old(dict).wf(),
    ensures
        final(dict).wf(),
        (outcome(r), final(dict)@) == request_step(old(dict)@, email@, now, code@),
        r is Ok ==> r->Ok_0.email@ == email@ && r->Ok_0.code == code,
{
    if let Err(e) = validate_email(email) {
        return Err(e);
    }
    let key = email.to_owned();
    if let Some((_, t)) = dict.codes.get(&key) {
        if (now as i128) - (t as i128) < RETRY_SECS as i128 {
            return Err(RegisterError::TooMany);
        }
    }
    let entry = EmailCodeEntry { email: email.to_owned(), code };
    dict.codes.put(key, entry.duplicate(), now);
    assert(dict@ =~= old(dict)@.insert(email@, (entry.code@, now)));
    Ok(entry)
}

/// Issues a fresh random code to `email` now; see `request_code_at`,
/// which this is for some time and some code. Sending the link is left
/// to the caller, and the code stays on record whether or not that
/// succeeds.
pub fn get_register_link(dict: &mut EmailCodeDict, email: &str) -> (r: Result<EmailCodeEntry, RegisterError>)
    requires
        old(dict).wf(),
    ensures
        final(dict).wf(),
        exists|now: i64, code: Seq<char>|
            {
                &&& (outcome(r), final(dict)@) == request_step(old(dict)@, email@, now, code)
                &&& code.len() == 36
                &&& r is Ok ==> r->Ok_0.code@ == code
            },
        r is Ok ==> r->Ok_0.email@ == email@,
{
    let now = now_secs();
    let code = fresh_token();
    request_code_at(dict, email, now, code)
}

/// The link that carries `code` to the sign-up page.
pub fn signup_link(code: &str) -> (r: String)
    ensures
        r@ == SIGNUP_URL@ + code@,
{
    let mut link = SIGNUP_URL.to_owned();
    link.append(code);
    link
}

/// What a registration answers before the password is hashed: the code must
/// pass for the address, then the address itself.
pub open spec fn registration_check(
    m: Map<Seq<char>, (Seq<char>, i64)>,
    email: Seq<char>,
    code: Seq<char>,
    now: i64,
) -> Result<(), RegisterError> {
    match code_step(m, email, code, now).0 {
        Err(e) => Err(e),
        Ok(_) => address_check(email),
    }
}

/// Checks a registration at time `now`: the code must pass for the address
/// (as `validate_code_at`), then the address itself (as `validate_email`).
pub fn check_registration_at(dict: &mut EmailCodeDict, info: &RegisterInfo, now: i64) -> (r: Result<
    (),
    RegisterError,
>)
    requires
        old(dict).wf(),
    ensures
        final(dict).wf(),
        final(dict)@ == code_step(old(dict)@, info.email@, info.vcode@, now).1,
        r == registration_check(old(dict)@, info.email@, info.vcode@, now),
{
    if let Err(e) = validate_code_at(dict, info.email.as_str(), info.vcode.as_str(), now) {
        return Err(e);
    }
    match validate_email(info.email.as_str()) {
        Ok(_) => Ok(()),
        Err(e) => Err(e),
    }
}

/// The user record to store for a registration, with a new hash of its
/// password that accepts that password; `Internal` where hashing fails.
pub fn new_user_record(info: &RegisterInfo) -> (r: Result<User, RegisterError>)
    ensures
        match r {
            Ok(u) => {
                &&& u.username == info.username
                &&& u.email == info.email
                &&& u.learnt_course@.len() == 0
                &&& bcrypt_verdict(info.password@, u.permanent_token@) == Some(true)
                &&& password_matches(u.permanent_token@, info.password@)
            },
            Err(e) => e == RegisterError::Internal,
        },
{
    match hash_password(info.password.as_str()) {
        Some(hash) => Ok(
            User {
                username: info.username.clone(),
                email: info.email.clone(),
                permanent_token: hash,
                learnt_course: Vec::new(),
            },
        ),
        None => Err(RegisterError::Internal),
    }
}

/// Checks a registration at time `now` and, when it passes, builds the user
/// record to store (`check_registration_at`, then `new_user_record`).
/// Storing the record and logging in are left to the caller.
pub fn post_user_at(dict: &mut EmailCodeDict, info: &RegisterInfo, now: i64) -> (r: Result<
    User,
    RegisterError,
>)
    requires
        old(dict).wf(),
    ensures
        final(dict).wf(),
        final(dict)@ == code_step(old(dict)@, info.email@, info.vcode@, now).1,
        registration_check(old(dict)@, info.email@, info.vcode@, now) is Err ==> r
            == Err::<User, RegisterError>(
            registration_check(old(dict)@, info.email@, info.vcode@, now)->Err_0,
        ),
        registration_check(old(dict)@, info.email@, info.vcode@, now) is Ok ==> match r {
            Ok(u) => {
                &&& u.username == info.username
                &&& u.email == info.email
                &&& u.learnt_course@.len() == 0
                &&& bcrypt_verdict(info.password@, u.permanent_token@) == Some(true)
                &&& password_matches(u.permanent_token@, info.password@)
            },
            Err(e) => e == RegisterError::Internal,
        },
{
    if let Err(e) = check_registration_at(dict, info, now) {
        return Err(e);
    }
    new_user_record(info)
}

/// Checks a registration now; see `check_registration_at`, which this is
/// for some time.
pub fn check_registration(dict: &mut EmailCodeDict, info: &RegisterInfo) -> (r: Result<
    (),
    RegisterError,
>)
    requires
        old(dict).wf(),
    ensures
        final(dict).wf(),
        exists|now: i64|
            {
                &&& final(dict)@ == code_step(old(dict)@, info.email@, info.vcode@, now).1
                &&& r == registration_check(old(dict)@, info.email@, info.vcode@, now)
            },
{
    let now = now_secs();
    check_registration_at(dict, info, now)
}

/// Checks a registration now; see `post_user_at`, which this is for some time.
pub fn post_user(dict: &mut EmailCodeDict, info: &RegisterInfo) -> (r: Result<User, RegisterError>)
    requires
        old(dict).wf(),
    ensures
        final(dict).wf(),
        exists|now: i64|
            {
                &&& final(dict)@ == code_step(old(dict)@, info.email@, info.vcode@, now).1
                &&& registration_check(old(dict)@, info.email@, info.vcode@, now) is Err ==> r
                    == Err::<User, RegisterError>(
                    registration_check(old(dict)@, info.email@, info.vcode@, now)->Err_0,
                )
                &&& registration_check(old(dict)@, info.email@, info.vcode@, now) is Ok ==> match r {
                    Ok(u) => {
                        &&& u.username == info.username
                        &&& u.email == info.email
                        &&& u.learnt_course@.len() == 0
                        &&& bcrypt_verdict(info.password@, u.permanent_token@) == Some(true)
                        &&& password_matches(u.permanent_token@, info.password@)
                    },
                    Err(e) => e == RegisterError::Internal,
                }
            },
{
    let now = now_secs();
    post_user_at(dict, info, now)
}

/// Once `code` has been issued to `email` at time `issued`, every other code
/// fails `CodeInvalid` for that address, and so does `code` itself from its
/// lifetime on; before then `code` passes. An address never issued a code
/// fails for every code.
pub proof fn lemma_only_latest_code(
    m: Map<Seq<char>, (Seq<char>, i64)>,
    email: Seq<char>,
    issued: i64,
    code: Seq<char>,
    given: Seq<char>,
    now: i64,
)
    requires
        request_step(m, email, issued, code).0 is Ok,
    ensures
        ({
            let m2 = request_step(m, email, issued, code).1;
            &&& given != code ==> code_step(m2, email, given, now).0 == Err::<(), RegisterError>(
                RegisterError::CodeInvalid,
            )
            &&& now - issued >= CODE_EXPIRE_SECS ==> code_step(m2, email, code, now).0 == Err::<
                (),
                RegisterError,
            >(RegisterError::CodeInvalid)
            &&& now - issued < CODE_EXPIRE_SECS ==> code_step(m2, email, code, now).0 == Ok::<
                (),
                RegisterError,
            >(())
        }),
        !m.contains_key(email) ==> code_step(m, email, given, now).0 == Err::<(), RegisterError>(
            RegisterError::CodeInvalid,
        ),
{
}

/// After a code was issued to `email` at `t1`, a second request at `t2`
/// fails `TooMany` and changes nothing while less than the cooldown has
/// passed; from the cooldown on it succeeds and puts the new code on record,
/// after which the earlier code, if it differs, no longer passes.
pub proof fn lemma_request_cooldown(
    m: Map<Seq<char>, (Seq<char>, i64)>,
    email: Seq<char>,
    t1: i64,
    code1: Seq<char>,
    t2: i64,
    code2: Seq<char>,
    now: i64,
)
    requires
        request_step(m, email, t1, code1).0 is Ok,
    ensures
        ({
            let m2 = request_step(m, email, t1, code1).1;
            let second = request_step(m2, email, t2, code2);
            &&& t2 - t1 < RETRY_SECS ==> second == (Err::<(), RegisterError>(RegisterError::TooMany), m2)
            &&& t2 - t1 >= RETRY_SECS ==> {
                &&& second.0 is Ok
                &&& second.1[email] == (code2, t2)
                &&& code1 != code2 ==> code_step(second.1, email, code1, now).0 == Err::<(), RegisterError>(
                    RegisterError::CodeInvalid,
                )
            }
        }),
{
}

} // verus!
