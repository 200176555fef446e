//! What a request does once its reads are done: the writes, in order, and
//! the answer. The server performs the steps one after the other and stops
//! at the first that fails.
use vstd::prelude::*;
use crate::auth::{Mail, SessionCookie};
use crate::error::AppError;
use crate::model::{Goal, Reset, Session, User};

verus! {

/// One step of a request.
pub enum Step {
    InsertUser(User),
    InsertSession(Session),
    /// Send this cookie back with the answer.
    SetCookie(SessionCookie),
    InsertReset(Reset),
    SendMail(Mail),
    /// Store this hash as the password of every account.
    SetEveryPassword(String),
    DeleteReset(u128),
    /// Delete the sessions of this account.
    DeleteSessionsOf(u128),
    /// Delete the password resets of this account.
    DeleteResetsOf(u128),
    DeleteUser(u128),
    InsertGoal(Goal),
    /// Answer with this status and body.
    Answer(u16, String),
    /// Send the client to this location.
    Redirect(String),
    /// Answer with this error.
    Fail(AppError),
}

/// `step` answers with `code` and `body`.
pub open spec fn answers(step: Step, code: u16, body: Seq<char>) -> bool {
    step matches Step::Answer(c, b) && c == code && b@ == body
}

/// `steps` is just the failure `e`: nothing is written.
pub open spec fn fails_with(steps: Seq<Step>, e: AppError) -> bool {
    steps == seq![Step::Fail(e)]
}

/// A step that ends the request.
pub open spec fn ends(step: Step) -> bool {
    step is Answer || step is Redirect || step is Fail
}

/// `u` with its password hash replaced by `h`.
pub open spec fn with_password(u: User, h: String) -> User {
    User {
        id: u.id,
        email: u.email,
        first_name: u.first_name,
        last_name: u.last_name,
        password: h,
        admin: u.admin,
    }
}

/// The accounts table after `step` succeeds.
pub open spec fn user_step(users: Map<u128, User>, step: Step) -> Map<u128, User> {
    match step {
        Step::InsertUser(u) => users.insert(u.id, u),
        Step::SetEveryPassword(h) => Map::new(
            |k: u128| users.dom().contains(k),
            |k: u128| with_password(users[k], h),
        ),
        Step::DeleteUser(id) => users.remove(id),
        _ => users,
    }
}

/// The resets table after `step` succeeds.
pub open spec fn reset_step(resets: Map<u128, Reset>, step: Step) -> Map<u128, Reset> {
    match step {
        Step::InsertReset(r) => resets.insert(r.id, r),
        Step::DeleteReset(id) => resets.remove(id),
        Step::DeleteResetsOf(user_id) => Map::new(
            |k: u128| resets.dom().contains(k) && resets[k].user_id != user_id,
            |k: u128| resets[k],
        ),
        _ => resets,
    }
}

/// The sessions table after `step` succeeds.
pub open spec fn session_step(sessions: Map<u128, Session>, step: Step) -> Map<u128, Session> {
    match step {
        Step::InsertSession(s) => sessions.insert(s.id, s),
        Step::DeleteSessionsOf(user_id) => Map::new(
            |k: u128| sessions.dom().contains(k) && sessions[k].user_id != user_id,
            |k: u128| sessions[k],
        ),
        _ => sessions,
    }
}

/// The accounts table, keyed by id, after `steps` are performed up to the
/// step that ends the request, each write succeeding.
pub open spec fn users_after(users: Map<u128, User>, steps: Seq<Step>) -> Map<u128, User>
    decreases steps.len(),
{
    if steps.len() == 0 || ends(steps[0]) {
        users
    } else {
        users_after(user_step(users, steps[0]), steps.drop_first())
    }
}

/// The resets table, keyed by id, after `steps` (as `users_after`).
pub open spec fn resets_after(resets: Map<u128, Reset>, steps: Seq<Step>) -> Map<u128, Reset>
    decreases steps.len(),
{
    if steps.len() == 0 || ends(steps[0]) {
        resets
    } else {
        resets_after(reset_step(resets, steps[0]), steps.drop_first())
    }
}

/// The sessions table, keyed by id, after `steps` (as `users_after`).
pub open spec fn sessions_after(sessions: Map<u128, Session>, steps: Seq<Step>) -> Map<
    u128,
    Session,
>
    decreases steps.len(),
{
    if steps.len() == 0 || ends(steps[0]) {
        sessions
    } else {
        sessions_after(session_step(sessions, steps[0]), steps.drop_first())
    }
}

/// A request that fails with `e` and nothing else.
pub fn fail(e: AppError) -> (s: Vec<Step>)
    ensures
        fails_with(s@, e),
{
    let mut s: Vec<Step> = Vec::new();
    s.push(Step::Fail(e));
    s
}

} // verus!
