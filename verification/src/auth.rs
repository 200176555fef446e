//! Registration, login and password reset: the checks and decisions of
//! each step, between the database queries that the service makes.
use vstd::prelude::*;
use vstd::string::*;
use crate::error::{status_of, AppError, BAD_REQUEST, CONFLICT, CREATED, NOT_FOUND, OK, UNAUTHORIZED};
use crate::steps::{
    answers, ends, fail, fails_with, reset_step, resets_after, session_step, sessions_after,
    user_step, users_after, Step,
};
use crate::model::{Reset, Session, User};
use crate::text::{uuid_string, uuid_text};
use crate::util::{
    found_or, generate_token, is_ascii_alphanumeric_char, is_random_uuid, new_uuid, TOKEN_LENGTH,
};
use crate::validate::{
    check_email, distinct_fields, email_valid, entries_view, field_failure, forbidden_in_password, password_failure, single_failure,
    validate_password, Failures, ValidationErrors, ValidationErrorsKind,
};

verus! {

/// The error type of the `bcrypt` crate.
#[verifier::external_type_specification]
#[verifier::external_body]
pub struct ExBcryptError(bcrypt::BcryptError);

/// What `bcrypt::verify` answers for a password and a stored hash:
/// whether they match, or `None` when the hash cannot be read.
pub uninterp spec fn bcrypt_check(password: Seq<char>, hash: Seq<char>) -> Option<bool>;

/// Calls `bcrypt::verify`, whose answer is named `bcrypt_check`.
#[verifier::external_body]
fn verify_password(password: &str, hash: &str) -> (r: Result<bool, bcrypt::BcryptError>)
    ensures
        match r {
            Ok(b) => bcrypt_check(password@, hash@) == Some(b),
            Err(_) => bcrypt_check(password@, hash@) is None,
        },
{
    bcrypt::verify(password, hash)
}

/// How every hash that `bcrypt::hash` makes at `DEFAULT_COST` begins.
pub open spec fn bcrypt_prefix() -> Seq<char> {
    "$2b$12$"@
}

/// Calls `bcrypt::hash` with `DEFAULT_COST`. The hash is salted at random
/// and fails only when no random salt can be had; the contract states what
/// the source shows of every hash it returns: its form (`$2b$12$`, then 22
/// characters of salt and 31 of hash, 60 in all) and that `bcrypt::verify`
/// accepts the same password against it.
#[verifier::external_body]
fn hash_password(password: &str) -> (r: Result<String, bcrypt::BcryptError>)
    ensures
        r matches Ok(h) ==> {
            &&& bcrypt_check(password@, h@) == Some(true)
            &&& h@.len() == 60
            &&& h@.take(7) == bcrypt_prefix()
        },
{
    bcrypt::hash(password, bcrypt::DEFAULT_COST)
}

/// The form that creates an account.
pub struct RegisterForm {
    pub email: String,
    pub first_name: String,
    pub last_name: String,
    pub password: String,
}

/// The form that opens a session.
pub struct LoginForm {
    pub email: String,
    pub password: String,
}

/// The form that redeems a password reset.
pub struct ResetForm {
    pub token: String,
    pub reset_id: u128,
    pub password: String,
}

/// The entry for an e-mail field, given whether `validate_email` accepts it.
pub open spec fn email_failures_of(email_ok: bool) -> Seq<(Seq<char>, Failures)> {
    if email_ok {
        Seq::empty()
    } else {
        seq![single_failure("email"@, "email"@)]
    }
}

/// The entry for an e-mail field that `validate_email` refuses.
pub open spec fn email_failures(email: Seq<char>) -> Seq<(Seq<char>, Failures)> {
    email_failures_of(email_valid(email))
}

/// The entry for a password field that breaks the password rules.
pub open spec fn password_failures(password: Seq<char>) -> Seq<(Seq<char>, Failures)> {
    match password_failure(password) {
        Some(code) => seq![single_failure("password"@, code)],
        None => Seq::empty(),
    }
}

/// What the checks of a registration form find: the e-mail address must be
/// one that `validate_email` accepts, the password must pass the rules.
pub open spec fn register_failures(form: RegisterForm) -> Seq<(Seq<char>, Failures)> {
    email_failures(form.email@) + password_failures(form.password@)
}

/// What the checks of a login form find: the e-mail address must be one
/// that `validate_email` accepts.
pub open spec fn login_failures(form: LoginForm) -> Seq<(Seq<char>, Failures)> {
    email_failures(form.email@)
}

/// The outcome of a form's checks: success when nothing failed, else a
/// validation error that lists the failures.
pub open spec fn checks_outcome(failures: Seq<(Seq<char>, Failures)>, r: Result<(), AppError>) -> bool {
    if failures.len() == 0 {
        r is Ok
    } else {
        r matches Err(AppError::Validate(errors)) && errors@ == failures
    }
}

/// The checks of a registration form report each field at most once.
pub proof fn register_fields_distinct(email_ok: bool, password: Seq<char>)
    ensures
        distinct_fields(email_failures_of(email_ok) + password_failures(password)),
        distinct_fields(email_failures_of(email_ok)),
{
    reveal_strlit("email");
    reveal_strlit("password");
    let all = email_failures_of(email_ok) + password_failures(password);
    assert("email"@.len() != "password"@.len());
    assert forall|i: int, j: int|
        0 <= i < all.len() && 0 <= j < all.len() && i != j implies #[trigger] all[i].0
        != #[trigger] all[j].0 by {
        if !email_ok && password_failure(password) is Some {
            assert(all.len() == 2);
            assert(all[0].0 == "email"@);
            assert(all[1].0 == "password"@);
        }
    }
}

fn email_entries(email_ok: bool, entries: &mut Vec<(String, ValidationErrorsKind)>)
    ensures
        entries_view(final(entries)@) == entries_view(old(entries)@) + email_failures_of(email_ok),
{
    let ghost before = entries@;
    if !email_ok {
        let e = field_failure("email", "email".to_owned());
        entries.push(e);
        assert(entries_view(entries@) =~= entries_view(before) + email_failures_of(email_ok));
    } else {
        assert(entries_view(before) + email_failures_of(email_ok) =~= entries_view(before));
    }
}

fn finish_checks(entries: Vec<(String, ValidationErrorsKind)>) -> (r: Result<(), AppError>)
    ensures
        checks_outcome(entries_view(entries@), r),
{
    if entries.len() == 0 {
        Ok(())
    } else {
        Err(AppError::Validate(ValidationErrors { entries }))
    }
}

/// The checks of a registration form, given whether `validate_email`
/// accepts its e-mail address: the address, then the password rules.
pub fn register_checks(form: &RegisterForm, email_ok: bool) -> (r: Result<(), AppError>)
    ensures
        checks_outcome(email_failures_of(email_ok) + password_failures(form.password@), r),
        r matches Err(AppError::Validate(errors)) ==> distinct_fields(errors@),
{
    proof {
        register_fields_distinct(email_ok, form.password@);
    }
    let mut entries: Vec<(String, ValidationErrorsKind)> = Vec::new();
    email_entries(email_ok, &mut entries);
    let ghost after_email = entries@;
    match validate_password(form.password.as_str()) {
        Ok(()) => {
            assert(password_failures(form.password@) =~= Seq::empty());
        },
        Err(e) => {
            let entry = field_failure("password", e.code);
            entries.push(entry);
            assert(entries_view(entries@) =~= entries_view(after_email) + password_failures(
                form.password@,
            ));
        },
    }
    assert(email_failures_of(email_ok) + password_failures(form.password@) =~= entries_view(
        entries@,
    ));
    finish_checks(entries)
}

/// Checks a registration form.
pub fn validate_register_form(form: &RegisterForm) -> (r: Result<(), AppError>)
    ensures
        checks_outcome(register_failures(*form), r),
        r matches Err(AppError::Validate(errors)) ==> distinct_fields(errors@),
{
    let email_ok = check_email(form.email.as_str());
    register_checks(form, email_ok)
}

/// The checks of a login form, given whether `validate_email` accepts its
/// e-mail address.
pub fn login_checks(email_ok: bool) -> (r: Result<(), AppError>)
    ensures
        checks_outcome(email_failures_of(email_ok), r),
        r matches Err(AppError::Validate(errors)) ==> distinct_fields(errors@),
{
    proof {
        register_fields_distinct(email_ok, Seq::empty());
    }
    let mut entries: Vec<(String, ValidationErrorsKind)> = Vec::new();
    email_entries(email_ok, &mut entries);
    assert(email_failures_of(email_ok) =~= entries_view(entries@));
    finish_checks(entries)
}

/// Checks a login form.
pub fn validate_login_form(form: &LoginForm) -> (r: Result<(), AppError>)
    ensures
        checks_outcome(login_failures(*form), r),
        r matches Err(AppError::Validate(errors)) ==> distinct_fields(errors@),
{
    login_checks(check_email(form.email.as_str()))
}

/// A form that fails its checks is answered with 400, whatever failed.
pub proof fn failed_checks_are_bad_requests(
    failures: Seq<(Seq<char>, Failures)>,
    r: Result<(), AppError>,
)
    requires
        checks_outcome(failures, r),
        failures.len() > 0,
    ensures
        r matches Err(e) && status_of(e) == BAD_REQUEST,
{
}

/// Refuses a registration when `existing` accounts already use its e-mail
/// address: the answer is then 409.
pub fn check_email_free(existing: i64) -> (r: Result<(), AppError>)
    ensures
        existing == 0 ==> r is Ok,
        existing != 0 ==> r == Err::<(), AppError>(AppError::Status(CONFLICT)),
{
    if existing != 0 {
        Err(AppError::Status(CONFLICT))
    } else {
        Ok(())
    }
}

/// `u` is an account that `form` creates: a random identifier, the form's
/// names and address, the bcrypt hash of its password, no administrator
/// rights.
pub open spec fn new_account(form: RegisterForm, u: User) -> bool {
    &&& is_random_uuid(u.id)
    &&& u.email@ == form.email@
    &&& u.first_name@ == form.first_name@
    &&& u.last_name@ == form.last_name@
    &&& bcrypt_check(form.password@, u.password@) == Some(true)
    &&& u.password@.len() == 60
    &&& u.password@.take(7) == bcrypt_prefix()
    &&& !u.admin
}

/// The account that a registration form creates: a fresh random
/// identifier, the form's names and address, the bcrypt hash of its
/// password, and no administrator rights. Fails only when hashing fails.
pub fn create_user(form: RegisterForm) -> (r: Result<User, AppError>)
    ensures
        r matches Err(e) ==> e == AppError::Bcrypt,
        r matches Ok(u) ==> new_account(form, u),
{
    let id = new_uuid();
    let password = match hash_password(form.password.as_str()) {
        Ok(h) => h,
        Err(_) => {
            return Err(AppError::Bcrypt);
        },
    };
    Ok(
        User {
            id,
            email: form.email,
            first_name: form.first_name,
            last_name: form.last_name,
            password,
            admin: false,
        },
    )
}

/// The outcome of a password check on the account `user` once
/// `bcrypt::verify` has answered `verdict` (`None`: the stored hash could
/// not be read): a hashing error, 401, or the account.
pub open spec fn verdict_outcome(user: User, verdict: Option<bool>) -> Result<User, AppError> {
    match verdict {
        None => Err(AppError::Bcrypt),
        Some(false) => Err(AppError::Status(UNAUTHORIZED)),
        Some(true) => Ok(user),
    }
}

/// The outcome of checking `password` against the stored account `found`:
/// `missing` when there is no account, else as `verdict_outcome` says for
/// what `bcrypt::verify` answers.
pub open spec fn password_check(password: Seq<char>, found: Option<User>, missing: u16) -> Result<
    User,
    AppError,
> {
    match found {
        None => Err(AppError::Status(missing)),
        Some(u) => verdict_outcome(u, bcrypt_check(password, u.password@)),
    }
}

/// Decides a password check on `user` from the answer of `bcrypt::verify`.
pub fn password_verdict(user: User, verdict: Option<bool>) -> (r: Result<User, AppError>)
    ensures
        r == verdict_outcome(user, verdict),
{
    match verdict {
        None => Err(AppError::Bcrypt),
        Some(false) => Err(AppError::Status(UNAUTHORIZED)),
        Some(true) => Ok(user),
    }
}

/// Checks `password` against the account `found`; see `password_check`.
pub fn check_password(password: &str, found: Option<User>, missing: u16) -> (r: Result<
    User,
    AppError,
>)
    ensures
        r == password_check(password@, found, missing),
{
    match found {
        None => Err(AppError::Status(missing)),
        Some(u) => {
            let verdict = match verify_password(password, u.password.as_str()) {
                Ok(b) => Some(b),
                Err(_) => None,
            };
            password_verdict(u, verdict)
        },
    }
}

/// Checks the credentials of a login: the account with the form's e-mail
/// address, `found`, must exist and its hash must match `password`;
/// otherwise the answer is 401.
pub fn check_credentials(password: &str, found: Option<User>) -> (r: Result<User, AppError>)
    ensures
        r == password_check(password@, found, UNAUTHORIZED),
{
    check_password(password, found, UNAUTHORIZED)
}

/// A password that was hashed at registration passes the login check
/// against the account that holds the hash.
pub proof fn registered_password_logs_in(password: Seq<char>, user: User)
    requires
        bcrypt_check(password, user.password@) == Some(true),
    ensures
        password_check(password, Some(user), UNAUTHORIZED) == Ok::<User, AppError>(user),
{
}

/// A stored hash never equals a password that passes the password rules:
/// every hash begins with `$`, which such a password does not hold.
pub proof fn hash_differs_from_valid_password(password: Seq<char>, hash: Seq<char>)
    requires
        password_failure(password) is None,
        hash.len() == 60,
        hash.take(7) == bcrypt_prefix(),
    ensures
        hash != password,
{
    reveal_strlit("$2b$12$");
    assert(hash[0] == hash.take(7)[0]);
    assert(hash[0] == '$');
    if hash == password {
        assert(!forbidden_in_password(password[0]));
    }
}

/// A login for an address that no account has, and a login with a
/// password that does not match, are both answered with 401.
pub proof fn failed_login_unauthorized(password: Seq<char>, found: Option<User>)
    requires
        found matches Some(u) ==> bcrypt_check(password, u.password@) == Some(false),
    ensures
        password_check(password, found, UNAUTHORIZED) == Err::<User, AppError>(
            AppError::Status(UNAUTHORIZED),
        ),
{
}

/// The number of seconds in a day.
pub const DAY_SECONDS: u64 = 86400;

/// The second at which a session opened at second `now` and lasting
/// `session_days` days ends: `None` when the session's length in seconds,
/// or its end, does not fit in 64 bits.
pub open spec fn session_end(now: u64, session_days: u64) -> Option<u64> {
    if DAY_SECONDS * session_days > u64::MAX || now + DAY_SECONDS * session_days > u64::MAX {
        None
    } else {
        Some((now + DAY_SECONDS * session_days) as u64)
    }
}

/// A new session for `user_id`, opened at `now` seconds and `now_nanos`
/// nanoseconds after the epoch and lasting `session_days` days; `None` when
/// its end does not fit (see `session_end`).
pub fn start_session(user_id: u128, now: u64, now_nanos: u32, session_days: u64) -> (r: Option<
    Session,
>)
    ensures
        match session_end(now, session_days) {
            None => r is None,
            Some(end) => r matches Some(s) && {
                &&& is_random_uuid(s.id)
                &&& s.user_id == user_id
                &&& s.expires_at == end
                &&& s.expires_at_nanos == now_nanos
            },
        },
{
    let length = match DAY_SECONDS.checked_mul(session_days) {
        None => {
            return None;
        },
        Some(l) => l,
    };
    let end = match now.checked_add(length) {
        None => {
            return None;
        },
        Some(e) => e,
    };
    Some(Session { id: new_uuid(), user_id, expires_at: end, expires_at_nanos: now_nanos })
}

/// The cookie that carries a session back to the client.
pub struct SessionCookie {
    pub name: String,
    pub value: String,
    pub path: String,
    pub http_only: bool,
}

/// The cookie for `session`: named `session_id`, holding the session's
/// hyphenated UUID, for every path, hidden from scripts.
pub fn session_cookie(session: &Session) -> (c: SessionCookie)
    ensures
        c.name@ == "session_id"@,
        c.value@ == uuid_text(session.id),
        c.path@ == "/"@,
        c.http_only,
{
    SessionCookie {
        name: "session_id".to_owned(),
        value: uuid_string(session.id),
        path: "/".to_owned(),
        http_only: true,
    }
}

/// A new password reset for the account `found` (the one with the
/// requested address): an error answered with 404 when there is none, else
/// a fresh random identifier and a random token of 16 letters and digits.
pub fn prepare_reset(found: Option<u128>) -> (r: Result<Reset, AppError>)
    ensures
        found is None ==> r == Err::<Reset, AppError>(AppError::Status(NOT_FOUND)),
        found matches Some(user_id) ==> r matches Ok(reset) && {
            &&& reset.user_id == user_id
            &&& is_random_uuid(reset.id)
            &&& reset.token@.len() == TOKEN_LENGTH
            &&& forall|i: int|
                0 <= i < reset.token@.len() ==> is_ascii_alphanumeric_char(#[trigger] reset.token@[i])
        },
{
    match found {
        None => Err(AppError::Status(NOT_FOUND)),
        Some(user_id) => {
            let id = new_uuid();
            let token = generate_token();
            Ok(Reset { id, token, user_id })
        },
    }
}

/// What `lettre` reads in `s` as a mailbox (`Mailbox::from_str`): its
/// display name, if any, and the text of its address; `None` when `s` is
/// not a mailbox.
pub uninterp spec fn mailbox_parsed(s: Seq<char>) -> Option<(Option<Seq<char>>, Seq<char>)>;

pub open spec fn opt_string_view(s: Option<String>) -> Option<Seq<char>> {
    match s {
        Some(v) => Some(v@),
        None => None,
    }
}

/// Calls `Mailbox::from_str` and hands out the mailbox's display name and
/// the text of its address (`Address`'s `Display`); what it reads is named
/// `mailbox_parsed`.
#[verifier::external_body]
fn parse_mailbox(s: &str) -> (r: Option<(Option<String>, String)>)
    ensures
        match r {
            None => mailbox_parsed(s@) is None,
            Some(m) => mailbox_parsed(s@) == Some((opt_string_view(m.0), m.1@)),
        },
{
    match s.parse::<lettre::message::Mailbox>() {
        Ok(m) => Some((m.name, m.email.to_string())),
        Err(_) => None,
    }
}

/// A mail to send: sender's address, recipient's display name and
/// address, subject, content type and body.
pub struct Mail {
    pub from: String,
    pub to_name: Option<String>,
    pub to_address: String,
    pub subject: String,
    pub content_type: String,
    pub body: String,
}

/// The content type of the password reset mail: plain text in UTF-8.
pub open spec fn plain_text() -> Seq<char> {
    "text/plain; charset=utf-8"@
}

/// The recipient of a password reset mail, the requested address `email`
/// as `lettre` reads it (display name, address): an error answered with
/// 400 when it cannot be read as a mailbox.
pub fn reset_recipient(email: &str) -> (r: Result<(Option<String>, String), AppError>)
    ensures
        match mailbox_parsed(email@) {
            None => r == Err::<(Option<String>, String), AppError>(AppError::Status(BAD_REQUEST)),
            Some(m) => r matches Ok(to) && m == (opt_string_view(to.0), to.1@),
        },
{
    found_or(parse_mailbox(email), BAD_REQUEST)
}

/// The subject of the password reset mail.
pub open spec fn reset_subject() -> Seq<char> {
    "Password reset"@
}

pub fn reset_mail_subject() -> (s: &'static str)
    ensures
        s@ == reset_subject(),
{
    "Password reset"
}

/// The link that the password reset mail carries.
pub open spec fn reset_link_text(domain: Seq<char>, token: Seq<char>, id: u128) -> Seq<char> {
    domain + "/reset?token="@ + token + "&reset_id="@ + uuid_text(id)
}

/// The body of the password reset mail: the link that redeems `reset` on
/// the site at `domain`.
pub fn reset_link(domain: &str, reset: &Reset) -> (s: String)
    ensures
        s@ == reset_link_text(domain@, reset.token@, reset.id),
{
    let mut s = String::new();
    s.append(domain);
    s.append("/reset?token=");
    s.append(reset.token.as_str());
    s.append("&reset_id=");
    let id = uuid_string(reset.id);
    s.append(id.as_str());
    s
}

/// Redeems the password reset `stored` with `form`: the tokens must be
/// equal (else 401); the new password's bcrypt hash is returned.
pub fn redeem_reset(stored: &Reset, form: &ResetForm) -> (r: Result<String, AppError>)
    ensures
        stored.token@ != form.token@ ==> r == Err::<String, AppError>(
            AppError::Status(UNAUTHORIZED),
        ),
        stored.token@ == form.token@ ==> match r {
            Ok(h) => bcrypt_check(form.password@, h@) == Some(true) && h@.len() == 60 && h@.take(7)
                == bcrypt_prefix(),
            Err(e) => e == AppError::Bcrypt,
        },
{
    if stored.token != form.token {
        return Err(AppError::Status(UNAUTHORIZED));
    }
    match hash_password(form.password.as_str()) {
        Ok(h) => Ok(h),
        Err(_) => Err(AppError::Bcrypt),
    }
}

} // verus!

verus! {

/// `s` are the steps of a registration with `form` once `existing`
/// accounts with its address have been counted (see `register_steps`).
pub open spec fn registration(form: RegisterForm, existing: i64, s: Seq<Step>) -> bool {
    &&& existing != 0 ==> fails_with(s, AppError::Status(CONFLICT))
    &&& existing == 0 ==> fails_with(s, AppError::Bcrypt) || {
        &&& s.len() == 2
        &&& s[0] matches Step::InsertUser(u) && new_account(form, u)
        &&& answers(s[1], CREATED, Seq::empty())
    }
}

/// The steps of a registration once `existing` accounts with its address
/// have been counted: 409 when there are some; else the new account is
/// inserted and the answer is 201 (or hashing fails, and nothing is
/// written).
pub fn register_steps(form: RegisterForm, existing: i64) -> (s: Vec<Step>)
    ensures
        registration(form, existing, s@),
{
    match check_email_free(existing) {
        Err(e) => fail(e),
        Ok(()) => match create_user(form) {
            Err(e) => fail(e),
            Ok(u) => {
                let mut s: Vec<Step> = Vec::new();
                s.push(Step::InsertUser(u));
                s.push(Step::Answer(CREATED, String::new()));
                s
            },
        },
    }
}

/// `r` is what `login_steps` gives for these inputs.
pub open spec fn login(
    password: Seq<char>,
    found: Option<User>,
    now: u64,
    now_nanos: u32,
    session_days: u64,
    r: Option<Vec<Step>>,
) -> bool {
    match password_check(password, found, UNAUTHORIZED) {
        Err(e) => r matches Some(s) && fails_with(s@, e),
        Ok(u) => match session_end(now, session_days) {
            None => r is None,
            Some(end) => r matches Some(s) && {
                &&& s@.len() == 3
                &&& s@[0] matches Step::InsertSession(session) && {
                    &&& is_random_uuid(session.id)
                    &&& session.user_id == u.id
                    &&& session.expires_at == end
                    &&& session.expires_at_nanos == now_nanos
                    &&& s@[1] matches Step::SetCookie(c) && c.name@ == "session_id"@ && c.value@
                        == uuid_text(session.id) && c.path@ == "/"@ && c.http_only
                }
                &&& answers(s@[2], OK, Seq::empty())
            },
        },
    }
}

/// The steps of a login once the account with the form's address, `found`,
/// has been read: the failure of the password check (401 for a missing
/// account or a wrong password), else a new session that lasts
/// `session_days` days from `now` (seconds and nanoseconds after the epoch)
/// is inserted, its cookie is sent and the answer is 200. `None` when the
/// password check passes but the session's end does not fit in 64 bits of
/// seconds: the login cannot go on.
pub fn login_steps(
    password: &str,
    found: Option<User>,
    now: u64,
    now_nanos: u32,
    session_days: u64,
) -> (r: Option<Vec<Step>>)
    ensures
        login(password@, found, now, now_nanos, session_days, r),
{
    match check_credentials(password, found) {
        Err(e) => Some(fail(e)),
        Ok(u) => match start_session(u.id, now, now_nanos, session_days) {
            None => None,
            Some(session) => {
                let cookie = session_cookie(&session);
                let mut s: Vec<Step> = Vec::new();
                s.push(Step::InsertSession(session));
                s.push(Step::SetCookie(cookie));
                s.push(Step::Answer(OK, String::new()));
                Some(s)
            },
        },
    }
}

/// `s` are the steps of a reset request for `email` once the account with
/// that address, `found`, has been looked up (see `reset_request_steps`).
pub open spec fn reset_request(
    found: Option<u128>,
    email: Seq<char>,
    sender: Seq<char>,
    domain: Seq<char>,
    s: Seq<Step>,
) -> bool {
    &&& found is None ==> fails_with(s, AppError::Status(NOT_FOUND))
    &&& found matches Some(user_id) ==> s.len() >= 2
    &&& found matches Some(user_id) ==> (s[0] matches Step::InsertReset(r) && {
        &&& r.user_id == user_id
        &&& is_random_uuid(r.id)
        &&& r.token@.len() == TOKEN_LENGTH
        &&& forall|i: int|
            0 <= i < r.token@.len() ==> is_ascii_alphanumeric_char(#[trigger] r.token@[i])
        &&& match mailbox_parsed(email) {
            None => s.len() == 2 && s[1] == Step::Fail(AppError::Status(BAD_REQUEST)),
            Some(to) => {
                &&& s.len() == 3
                &&& s[1] matches Step::SendMail(m) && {
                    &&& m.from@ == sender
                    &&& (opt_string_view(m.to_name), m.to_address@) == to
                    &&& m.subject@ == reset_subject()
                    &&& m.content_type@ == plain_text()
                    &&& m.body@ == reset_link_text(domain, r.token@, r.id)
                }
                &&& answers(s[2], OK, Seq::empty())
            },
        }
    })
}

/// The steps of a password reset request for `email` once the account with
/// that address, `found`, has been looked up: 404 when there is none; else
/// a new reset is inserted first, and then either the address cannot be
/// read as a mailbox (400) or the plain-text mail with the reset link on
/// `domain` is sent to it from `sender` and the answer is 200.
pub fn reset_request_steps(found: Option<u128>, email: &str, sender: &str, domain: &str) -> (s: Vec<
    Step,
>)
    ensures
        reset_request(found, email@, sender@, domain@, s@),
{
    match prepare_reset(found) {
        Err(e) => fail(e),
        Ok(reset) => {
            let body = reset_link(domain, &reset);
            let mut s: Vec<Step> = Vec::new();
            s.push(Step::InsertReset(reset));
            match reset_recipient(email) {
                Err(e) => {
                    s.push(Step::Fail(e));
                },
                Ok(to) => {
                    let mail = Mail {
                        from: sender.to_owned(),
                        to_name: to.0,
                        to_address: to.1,
                        subject: reset_mail_subject().to_owned(),
                        content_type: "text/plain; charset=utf-8".to_owned(),
                        body,
                    };
                    s.push(Step::SendMail(mail));
                    s.push(Step::Answer(OK, String::new()));
                },
            }
            s
        },
    }
}

/// `s` are the steps of redeeming `stored` with `form` (see
/// `redeem_steps`).
pub open spec fn redemption(stored: Reset, form: ResetForm, s: Seq<Step>) -> bool {
    &&& stored.token@ != form.token@ ==> fails_with(s, AppError::Status(UNAUTHORIZED))
    &&& stored.token@ == form.token@ ==> fails_with(s, AppError::Bcrypt) || {
        &&& s.len() == 3
        &&& s[0] matches Step::SetEveryPassword(h) && {
            &&& bcrypt_check(form.password@, h@) == Some(true)
            &&& h@.len() == 60
            &&& h@.take(7) == bcrypt_prefix()
        }
        &&& s[1] == Step::DeleteReset(stored.id)
        &&& answers(s[2], OK, Seq::empty())
    }
}

/// The steps of redeeming the stored reset `stored` with `form`: 401 when
/// the tokens differ; else the new password's hash is stored, the reset is
/// deleted and the answer is 200 (or hashing fails, and nothing is
/// written).
pub fn redeem_steps(stored: &Reset, form: &ResetForm) -> (s: Vec<Step>)
    ensures
        redemption(*stored, *form, s@),
{
    match redeem_reset(stored, form) {
        Err(e) => fail(e),
        Ok(h) => {
            let mut s: Vec<Step> = Vec::new();
            s.push(Step::SetEveryPassword(h));
            s.push(Step::DeleteReset(stored.id));
            s.push(Step::Answer(OK, String::new()));
            s
        },
    }
}

} // verus!

verus! {

/// Registering and then logging in with the same password: the account
/// that the registration inserts is in the accounts table afterwards, the
/// form's password passes the login check against it, and a login with it
/// (whose session end fits) inserts a session of that account and sends
/// the cookie that names the session.
pub proof fn registered_account_logs_in(
    form: RegisterForm,
    existing: i64,
    s: Seq<Step>,
    users: Map<u128, User>,
    sessions: Map<u128, Session>,
    now: u64,
    now_nanos: u32,
    session_days: u64,
    r: Option<Vec<Step>>,
)
    requires
        registration(form, existing, s),
        s.len() == 2,
        session_end(now, session_days) is Some,
    ensures
        s[0] matches Step::InsertUser(n) && {
            &&& users_after(users, s).dom().contains(n.id)
            &&& users_after(users, s)[n.id] == n
            &&& password_check(form.password@, Some(n), UNAUTHORIZED) == Ok::<User, AppError>(n)
            &&& login(form.password@, Some(n), now, now_nanos, session_days, r) ==> (r matches Some(
                l,
            ) && l@[0] matches Step::InsertSession(session) && {
                &&& session.user_id == n.id
                &&& sessions_after(sessions, l@).dom().contains(session.id)
                &&& sessions_after(sessions, l@)[session.id] == session
                &&& l@[1] matches Step::SetCookie(c) && c.value@ == uuid_text(session.id)
            })
        },
{
    let n = s[0]->InsertUser_0;
    let rest = s.drop_first();
    assert(!ends(s[0]));
    assert(ends(rest[0]));
    assert(users_after(users, s) == users_after(user_step(users, s[0]), rest));
    assert(users_after(user_step(users, s[0]), rest) == user_step(users, s[0]));
    assert(users_after(users, s) == users.insert(n.id, n));
    if login(form.password@, Some(n), now, now_nanos, session_days, r) {
        let l = r->Some_0@;
        let session = l[0]->InsertSession_0;
        let l1 = l.drop_first();
        let l2 = l1.drop_first();
        assert(!ends(l[0]) && !ends(l1[0]) && ends(l2[0]));
        let t1 = session_step(sessions, l[0]);
        assert(sessions_after(sessions, l) == sessions_after(t1, l1));
        assert(session_step(t1, l1[0]) == t1);
        assert(sessions_after(t1, l1) == sessions_after(t1, l2));
        assert(sessions_after(sessions, l) == sessions.insert(session.id, session));
    }
}

/// A reset can be redeemed once: after a redemption that succeeds, its row
/// is gone from the resets table (a second attempt finds nothing), and
/// every account's hash is one that the new password passes; a redemption
/// that fails writes nothing.
pub proof fn redeemed_reset_is_gone(
    stored: Reset,
    form: ResetForm,
    s: Seq<Step>,
    resets: Map<u128, Reset>,
    users: Map<u128, User>,
)
    requires
        redemption(stored, form, s),
    ensures
        s.len() == 3 ==> !resets_after(resets, s).dom().contains(stored.id),
        s.len() == 3 ==> forall|k: u128|
            #![trigger users_after(users, s)[k]]
            users.dom().contains(k) ==> users_after(users, s).dom().contains(k) && bcrypt_check(
                form.password@,
                users_after(users, s)[k].password@,
            ) == Some(true),
        s.len() != 3 ==> resets_after(resets, s) == resets && users_after(users, s) == users,
{
    if s.len() == 3 {
        let rest = s.drop_first();
        let last = rest.drop_first();
        assert(rest[0] == Step::DeleteReset(stored.id));
        assert(!ends(s[0]) && !ends(rest[0]) && ends(last[0]));
        let r1 = reset_step(resets, s[0]);
        assert(r1 == resets);
        assert(resets_after(resets, s) == resets_after(r1, rest));
        assert(resets_after(r1, rest) == resets_after(reset_step(r1, rest[0]), last));
        assert(resets_after(reset_step(r1, rest[0]), last) == resets.remove(stored.id));
        let u1 = user_step(users, s[0]);
        assert(users_after(users, s) == users_after(u1, rest));
        assert(users_after(u1, rest) == users_after(user_step(u1, rest[0]), last));
        assert(user_step(u1, rest[0]) == u1);
        assert(users_after(users, s) == u1);
    } else {
        assert(ends(s[0]));
    }
}

/// A reset request followed by a redemption with the token and id that
/// its mail carries: the request stores the reset under that id, and the
/// redemption of that reset is never refused for its token.
pub proof fn mailed_reset_redeems(
    found: Option<u128>,
    email: Seq<char>,
    sender: Seq<char>,
    domain: Seq<char>,
    s: Seq<Step>,
    r: Reset,
    resets: Map<u128, Reset>,
    form: ResetForm,
)
    requires
        reset_request(found, email, sender, domain, s),
        found is Some,
        s[0] == Step::InsertReset(r),
        form.token@ == r.token@,
        form.reset_id == r.id,
    ensures
        resets_after(resets, s).dom().contains(form.reset_id),
        resets_after(resets, s)[form.reset_id] == r,
        forall|s2: Seq<Step>|
            redemption(r, form, s2) ==> !fails_with(s2, AppError::Status(UNAUTHORIZED)),
{
    let rest = s.drop_first();
    let r1 = reset_step(resets, s[0]);
    assert(r1 == resets.insert(r.id, r));
    assert(!ends(s[0]));
    assert(resets_after(resets, s) == resets_after(r1, rest));
    if ends(rest[0]) {
        assert(resets_after(r1, rest) == r1);
    } else {
        let last = rest.drop_first();
        assert(rest[0] is SendMail);
        assert(ends(last[0]));
        assert(reset_step(r1, rest[0]) == r1);
        assert(resets_after(r1, rest) == resets_after(r1, last));
        assert(resets_after(r1, last) == r1);
    }
    assert forall|s2: Seq<Step>| redemption(r, form, s2) implies !fails_with(
        s2,
        AppError::Status(UNAUTHORIZED),
    ) by {
        if fails_with(s2, AppError::Status(UNAUTHORIZED)) {
            assert(s2[0] == Step::Fail(AppError::Status(UNAUTHORIZED)));
        }
    }
}

} // verus!
