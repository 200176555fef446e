//! Deleting an account.
use vstd::prelude::*;
use crate::auth::{check_password, password_check};
use crate::error::{AppError, NOT_FOUND};
use crate::model::User;
use crate::steps::{fail, fails_with, Step};

verus! {

/// The form that deletes an account: its password, again.
pub struct DeleteForm {
    pub password: String,
}

/// Checks a request to delete the account `found` (the signed-in user's,
/// read again from the database): 404 when it is gone, 401 when the form's
/// password does not match its hash. The account returned is the one whose
/// sessions, resets and row are then deleted.
pub fn check_delete(found: Option<User>, form: &DeleteForm) -> (r: Result<User, AppError>)
    ensures
        r == password_check(form.password@, found, NOT_FOUND),
{
    check_password(form.password.as_str(), found, NOT_FOUND)
}

/// Where the client is sent once its account is deleted.
pub fn after_delete_location() -> (s: &'static str)
    ensures
        s@ == "/"@,
{
    "/"
}

/// The steps of deleting an account once it has been read again as
/// `found`: the failure of the password check (404 when it is gone, 401
/// for a wrong password); else its sessions, its resets and then the
/// account itself are deleted, and the client is sent to `/`.
pub fn delete_steps(found: Option<User>, form: &DeleteForm) -> (s: Vec<Step>)
    ensures
        match password_check(form.password@, found, NOT_FOUND) {
            Err(e) => fails_with(s@, e),
            Ok(u) => {
                &&& s@.len() == 4
                &&& s@[0] == Step::DeleteSessionsOf(u.id)
                &&& s@[1] == Step::DeleteResetsOf(u.id)
                &&& s@[2] == Step::DeleteUser(u.id)
                &&& s@[3] matches Step::Redirect(l) && l@ == "/"@
            },
        },
{
    match check_delete(found, form) {
        Err(e) => fail(e),
        Ok(u) => {
            let mut s: Vec<Step> = Vec::new();
            s.push(Step::DeleteSessionsOf(u.id));
            s.push(Step::DeleteResetsOf(u.id));
            s.push(Step::DeleteUser(u.id));
            s.push(Step::Redirect(after_delete_location().to_owned()));
            s
        },
    }
}

} // verus!
