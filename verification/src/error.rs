//! The errors a request can end in, and the HTTP answer each one gets.
use vstd::prelude::*;
use vstd::string::*;
use crate::validate::{Failures, ValidationErrors, ValidationErrorsKind};

verus! {

/// What the database reported when a query failed.
#[derive(Debug)]
pub enum DieselError {
    /// An insert or update broke a unique constraint.
    UniqueViolation,
    /// The query found no row where one was expected.
    NotFound,
    /// Any other failure of the query or of the connection.
    Other,
}

/// Why a request failed.
#[derive(Debug)]
pub enum AppError {
    /// No connection could be taken from the pool.
    Bb8,
    /// A query failed.
    Diesel(DieselError),
    /// The mail could not be sent.
    Lettre,
    /// Hashing or checking a password failed.
    Bcrypt,
    /// The request is answered with this HTTP status.
    Status(u16),
    /// The submitted form did not pass its checks.
    Validate(ValidationErrors),
}

pub const OK: u16 = 200;

pub const CREATED: u16 = 201;

pub const BAD_REQUEST: u16 = 400;

pub const UNAUTHORIZED: u16 = 401;

pub const NOT_FOUND: u16 = 404;

pub const CONFLICT: u16 = 409;

pub const INTERNAL_SERVER_ERROR: u16 = 500;

/// The HTTP status that answers `e`.
pub open spec fn status_of(e: AppError) -> u16 {
    match e {
        AppError::Status(s) => s,
        AppError::Validate(_) => BAD_REQUEST,
        AppError::Diesel(DieselError::UniqueViolation) => CONFLICT,
        _ => INTERNAL_SERVER_ERROR,
    }
}

/// What the answer to a failed check of a form entry shows: the code of its
/// first failed check and a line break, or nothing.
pub open spec fn failure_text(f: Failures) -> Seq<char> {
    match f {
        Failures::Field(codes) => if codes.len() == 0 {
            Seq::empty()
        } else {
            codes[0] + seq!['\n']
        },
        _ => Seq::empty(),
    }
}

/// The text that `{:#?}` writes for a string: `Debug` of `str`, in quotes,
/// with special characters escaped.
pub uninterp spec fn debug_text(s: Seq<char>) -> Seq<char>;

/// Formats `s` with `{:#?}` (the standard library's `Debug` for `str`),
/// whose result is named `debug_text`.
#[verifier::external_body]
fn debug_string(s: &String) -> (r: String)
    ensures
        r@ == debug_text(s@),
{
    format!("{:#?}", s)
}

/// The body of the answer to a failed form: for each entry in turn, its
/// field name, ` : ` and the debug form of its failure text.
pub open spec fn validation_body(entries: Seq<(Seq<char>, Failures)>) -> Seq<char>
    decreases entries.len(),
{
    if entries.len() == 0 {
        Seq::empty()
    } else {
        validation_body(entries.drop_last()) + entries.last().0 + " : "@ + debug_text(
            failure_text(entries.last().1),
        )
    }
}

/// The body of the answer to `e`.
pub open spec fn body_of(e: AppError) -> Seq<char> {
    match e {
        AppError::Validate(errors) => validation_body(errors@),
        _ => Seq::empty(),
    }
}

/// The text of the first failed check of `error`, followed by a line break;
/// empty when nothing names a failed check.
pub fn display_validation_error(error: &ValidationErrorsKind) -> (s: String)
    ensures
        s@ == failure_text(error@),
{
    match error {
        ValidationErrorsKind::Field(errors) => {
            if errors.len() == 0 {
                return String::new();
            }
            let mut s = String::new();
            s.append(errors[0].code.as_str());
            s.append("\n");
            proof {
                reveal_strlit("\n");
            }
            assert(s@ =~= errors@[0]@ + seq!['\n']);
            s
        },
        _ => String::new(),
    }
}

impl AppError {
    /// The HTTP status that answers this error.
    pub fn status(&self) -> (s: u16)
        ensures
            s == status_of(*self),
    {
        match self {
            AppError::Status(s) => *s,
            AppError::Validate(_) => BAD_REQUEST,
            AppError::Diesel(DieselError::UniqueViolation) => CONFLICT,
            _ => INTERNAL_SERVER_ERROR,
        }
    }

    /// The HTTP answer to this error: its status and its body.
    pub fn into_response(self) -> (r: (u16, String))
        ensures
            r.0 == status_of(self),
            r.1@ == body_of(self),
    {
        let status = self.status();
        match self {
            AppError::Validate(errors) => {
                let mut body = String::new();
                let mut i: usize = 0;
                while i < errors.entries.len()
                    invariant
                        i <= errors.entries@.len(),
                        body@ == validation_body(errors@.take(i as int)),
                    decreases errors.entries@.len() - i,
                {
                    let text = display_validation_error(&errors.entries[i].1);
                    let shown = debug_string(&text);
                    let ghost before = body@;
                    body.append(errors.entries[i].0.as_str());
                    body.append(" : ");
                    body.append(shown.as_str());
                    assert(errors@.take(i + 1).drop_last() =~= errors@.take(i as int));
                    assert(body@ =~= before + errors@[i as int].0 + " : "@ + debug_text(
                        failure_text(errors@[i as int].1),
                    ));
                    i = i + 1;
                }
                assert(errors@.take(errors.entries@.len() as int) =~= errors@);
                (status, body)
            },
            _ => (status, String::new()),
        }
    }

    /// The one-line description of this error.
    pub fn message(&self) -> (m: &'static str)
        ensures
            m@ == message_of(*self),
    {
        match self {
            AppError::Bb8 => "Db connection errorr",
            AppError::Diesel(_) => "Database error",
            AppError::Lettre => "Lettre errror",
            AppError::Bcrypt => "Bcrypt error",
            AppError::Status(_) => "Just some status code",
            AppError::Validate(_) => "Failed to validate input",
        }
    }
}

/// The one-line description of `e`.
pub open spec fn message_of(e: AppError) -> Seq<char> {
    match e {
        AppError::Bb8 => "Db connection errorr"@,
        AppError::Diesel(_) => "Database error"@,
        AppError::Lettre => "Lettre errror"@,
        AppError::Bcrypt => "Bcrypt error"@,
        AppError::Status(_) => "Just some status code"@,
        AppError::Validate(_) => "Failed to validate input"@,
    }
}

impl From<u16> for AppError {
    fn from(value: u16) -> (e: AppError) {
        AppError::Status(value)
    }
}

impl vstd::std_specs::convert::FromSpecImpl<u16> for AppError {
    open spec fn obeys_from_spec() -> bool {
        true
    }

    open spec fn from_spec(v: u16) -> AppError {
        AppError::Status(v)
    }
}

/// The answer to an error made from a status (by `AppError::from`) is that
/// status, with an empty body.
pub proof fn status_round_trip(status: u16)
    ensures
        status_of(<AppError as vstd::std_specs::convert::FromSpec<u16>>::from_spec(status))
            == status,
        body_of(<AppError as vstd::std_specs::convert::FromSpec<u16>>::from_spec(status))
            == Seq::<char>::empty(),
{
}

} // verus!

verus! {

/// The HTTP answer to each error: its own status, 400 for a form that
/// failed its checks, 409 for a broken unique constraint, 500 for every
/// other failure; only a failed form has a body.
pub proof fn statuses_of_errors(e: AppError)
    ensures
        e matches AppError::Status(s) ==> status_of(e) == s && body_of(e).len() == 0,
        e is Validate ==> status_of(e) == 400,
        e == AppError::Diesel(DieselError::UniqueViolation) ==> status_of(e) == 409,
        e is Bb8 || e is Lettre || e is Bcrypt || e == AppError::Diesel(DieselError::NotFound) || e
            == AppError::Diesel(DieselError::Other) ==> status_of(e) == 500 && body_of(e).len()
            == 0,
{
}

} // verus!
