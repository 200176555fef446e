//! Input validation: the password rules, the e-mail address check and the
//! record of failed checks that a form's validation hands back.
use vstd::prelude::*;
use vstd::utf8::encode_utf8;
use crate::text::to_chars;

verus! {

/// One failed check, reported by its code.
#[derive(Debug)]
pub struct ValidationError {
    pub code: String,
}

impl View for ValidationError {
    type V = Seq<char>;

    open spec fn view(&self) -> Seq<char> {
        self.code@
    }
}

/// What failed in one entry of a form.
#[derive(Debug)]
pub enum ValidationErrorsKind {
    /// The checks of a plain field that failed, in the order they ran.
    Field(Vec<ValidationError>),
    /// A nested form failed.
    Struct,
    /// An element of a nested list failed.
    List,
}

/// The abstract value of a [`ValidationErrorsKind`].
pub enum Failures {
    Field(Seq<Seq<char>>),
    Struct,
    List,
}

impl View for ValidationErrorsKind {
    type V = Failures;

    open spec fn view(&self) -> Failures {
        match self {
            ValidationErrorsKind::Field(errors) => Failures::Field(
                errors@.map_values(|e: ValidationError| e@),
            ),
            ValidationErrorsKind::Struct => Failures::Struct,
            ValidationErrorsKind::List => Failures::List,
        }
    }
}

/// The failed checks of a form, one entry per field name.
#[derive(Debug)]
pub struct ValidationErrors {
    pub entries: Vec<(String, ValidationErrorsKind)>,
}

/// The abstract value of a list of form entries.
pub open spec fn entries_view(entries: Seq<(String, ValidationErrorsKind)>) -> Seq<
    (Seq<char>, Failures),
> {
    entries.map_values(|e: (String, ValidationErrorsKind)| (e.0@, e.1@))
}

impl View for ValidationErrors {
    type V = Seq<(Seq<char>, Failures)>;

    open spec fn view(&self) -> Seq<(Seq<char>, Failures)> {
        entries_view(self.entries@)
    }
}

/// No two entries name the same field (an entry per field name, as the
/// field-keyed collections of form errors have it).
pub open spec fn distinct_fields(entries: Seq<(Seq<char>, Failures)>) -> bool {
    forall|i: int, j: int|
        0 <= i < entries.len() && 0 <= j < entries.len() && i != j ==> #[trigger] entries[i].0
            != #[trigger] entries[j].0
}

/// A field entry that holds the single failed check `code`.
pub open spec fn single_failure(field: Seq<char>, code: Seq<char>) -> (Seq<char>, Failures) {
    (field, Failures::Field(seq![code]))
}

/// The entry `(field, [code])`.
pub fn field_failure(field: &str, code: String) -> (e: (String, ValidationErrorsKind))
    ensures
        (e.0@, e.1@) == single_failure(field@, code@),
{
    let mut errors: Vec<ValidationError> = Vec::new();
    errors.push(ValidationError { code });
    let e = (field.to_owned(), ValidationErrorsKind::Field(errors));
    assert(e.1@ == Failures::Field(seq![code@])) by {
        assert(errors@.map_values(|e: ValidationError| e@) =~= seq![code@]);
    }
    e
}

/// The characters a password may not contain.
pub open spec fn forbidden_in_password(c: char) -> bool {
    ||| c == '[' || c == '^' || c == '(' || c == ')' || c == '{' || c == '}' || c == ']'
    ||| c == '|' || c == '`' || c == '\u{ac}' || c == '\u{a6}' || c == '!' || c == '"'
    ||| c == '\u{a3}' || c == '$' || c == '%' || c == '&' || c == '*' || c == '<' || c == '>'
    ||| c == ':' || c == ';' || c == '#' || c == '~' || c == '_' || c == '-' || c == '+'
    ||| c == '=' || c == ',' || c == '@'
}

pub fn is_forbidden_in_password(c: char) -> (b: bool)
    ensures
        b == forbidden_in_password(c),
{
    c == '[' || c == '^' || c == '(' || c == ')' || c == '{' || c == '}' || c == ']' || c == '|'
        || c == '`' || c == '\u{ac}' || c == '\u{a6}' || c == '!' || c == '"' || c == '\u{a3}'
        || c == '$' || c == '%' || c == '&' || c == '*' || c == '<' || c == '>' || c == ':' || c
        == ';' || c == '#' || c == '~' || c == '_' || c == '-' || c == '+' || c == '=' || c == ','
        || c == '@'
}

/// The length of `p` in UTF-8 bytes, cut to its lowest 8 bits: the length
/// the password rules go by (a password of 259 bytes counts as 3).
pub open spec fn password_length(p: Seq<char>) -> u8 {
    (encode_utf8(p).len() as usize) as u8
}

/// The length the password rules go by is the byte length modulo 256.
pub proof fn password_length_wraps(p: Seq<char>)
    requires
        encode_utf8(p).len() <= usize::MAX,
    ensures
        password_length(p) == encode_utf8(p).len() % 256,
{
    let n = encode_utf8(p).len() as usize;
    assert(n == encode_utf8(p).len());
    assert((n as u8) == n % 256) by (bit_vector);
}

pub open spec fn password_length_ok(p: Seq<char>) -> bool {
    3 <= password_length(p) <= 20
}

pub open spec fn password_chars_ok(p: Seq<char>) -> bool {
    forall|i: int| 0 <= i < p.len() ==> !forbidden_in_password(#[trigger] p[i])
}

pub open spec fn length_message() -> Seq<char> {
    "Password must be between 3 and 20 characters long"@
}

pub open spec fn character_message() -> Seq<char> {
    "Invalid character in password"@
}

/// What the password rules say of `p`: `None` when it passes, else the code
/// of the first rule it breaks (the length rule is checked first).
pub open spec fn password_failure(p: Seq<char>) -> Option<Seq<char>> {
    if !password_length_ok(p) {
        Some(length_message())
    } else if !password_chars_ok(p) {
        Some(character_message())
    } else {
        None
    }
}

/// The characters a password may not hold, as the blacklist text writes
/// them: `[^(){}[]|`, a back quote, `¬¦!"£$%^&*"<>:;#~_-+=,@]`.
pub open spec fn password_blacklist() -> Seq<char> {
    "[^(){}[]|`\u{ac}\u{a6}!\"\u{a3}$%^&*\"<>:;#~_-+=,@]"@
}

proof fn lemma_blacklist_literal()
    ensures
        password_blacklist() =~= seq!['[', '^', '(', ')', '{', '}', '[', ']', '|', '`', '\u{ac}', '\u{a6}', '!', '"', '\u{a3}', '$', '%', '^', '&', '*', '"', '<', '>', ':', ';', '#', '~', '_', '-', '+', '=', ',', '@', ']'],
{
    reveal_strlit("[^(){}[]|`\u{ac}\u{a6}!\"\u{a3}$%^&*\"<>:;#~_-+=,@]");
}

/// A character is forbidden exactly when the blacklist text holds it.
pub proof fn forbidden_iff_blacklisted(c: char)
    ensures
        forbidden_in_password(c) <==> password_blacklist().contains(c),
{
    lemma_blacklist_literal();
    let b = password_blacklist();
    if forbidden_in_password(c) {
        if c == '[' {
            assert(b[0] == c);
        }
        if c == '^' {
            assert(b[1] == c);
        }
        if c == '(' {
            assert(b[2] == c);
        }
        if c == ')' {
            assert(b[3] == c);
        }
        if c == '{' {
            assert(b[4] == c);
        }
        if c == '}' {
            assert(b[5] == c);
        }
        if c == '[' {
            assert(b[6] == c);
        }
        if c == ']' {
            assert(b[7] == c);
        }
        if c == '|' {
            assert(b[8] == c);
        }
        if c == '`' {
            assert(b[9] == c);
        }
        if c == '\u{ac}' {
            assert(b[10] == c);
        }
        if c == '\u{a6}' {
            assert(b[11] == c);
        }
        if c == '!' {
            assert(b[12] == c);
        }
        if c == '"' {
            assert(b[13] == c);
        }
        if c == '\u{a3}' {
            assert(b[14] == c);
        }
        if c == '$' {
            assert(b[15] == c);
        }
        if c == '%' {
            assert(b[16] == c);
        }
        if c == '^' {
            assert(b[17] == c);
        }
        if c == '&' {
            assert(b[18] == c);
        }
        if c == '*' {
            assert(b[19] == c);
        }
        if c == '"' {
            assert(b[20] == c);
        }
        if c == '<' {
            assert(b[21] == c);
        }
        if c == '>' {
            assert(b[22] == c);
        }
        if c == ':' {
            assert(b[23] == c);
        }
        if c == ';' {
            assert(b[24] == c);
        }
        if c == '#' {
            assert(b[25] == c);
        }
        if c == '~' {
            assert(b[26] == c);
        }
        if c == '_' {
            assert(b[27] == c);
        }
        if c == '-' {
            assert(b[28] == c);
        }
        if c == '+' {
            assert(b[29] == c);
        }
        if c == '=' {
            assert(b[30] == c);
        }
        if c == ',' {
            assert(b[31] == c);
        }
        if c == '@' {
            assert(b[32] == c);
        }
        if c == ']' {
            assert(b[33] == c);
        }
    }
    if b.contains(c) {
        let i = choose|i: int| 0 <= i < b.len() && b[i] == c;
        assert(forbidden_in_password(b[i]));
    }
}

/// The password rules, in terms of the password alone: with a byte length
/// (cut to 8 bits) below 3 or above 20 it is refused for its length; else
/// a character of the blacklist text in it refuses it for that character;
/// else it is accepted.
pub proof fn password_rules(p: Seq<char>)
    ensures
        ((encode_utf8(p).len() as usize) as u8) < 3 || ((encode_utf8(p).len() as usize) as u8) > 20
            ==> password_failure(p) == Some("Password must be between 3 and 20 characters long"@),
        3 <= ((encode_utf8(p).len() as usize) as u8) <= 20 && (exists|i: int|
            0 <= i < p.len() && password_blacklist().contains(#[trigger] p[i])) ==> password_failure(p)
            == Some("Invalid character in password"@),
        3 <= ((encode_utf8(p).len() as usize) as u8) <= 20 && (forall|i: int|
            0 <= i < p.len() ==> !password_blacklist().contains(#[trigger] p[i])) ==> password_failure(p)
            is None,
{
    assert forall|i: int| 0 <= i < p.len() implies (forbidden_in_password(#[trigger] p[i])
        <==> password_blacklist().contains(p[i])) by {
        forbidden_iff_blacklisted(p[i]);
    }
}

/// A password of 3 to 20 bytes that holds a character of the blacklist text
/// is refused for that character.
pub proof fn blacklisted_character_refused(p: Seq<char>, i: int)
    requires
        0 <= i < p.len(),
        password_blacklist().contains(p[i]),
        3 <= ((encode_utf8(p).len() as usize) as u8) <= 20,
    ensures
        password_failure(p) == Some("Invalid character in password"@),
{
    password_rules(p);
}

/// Checks a password: 3 to 20 bytes long (by `password_length`) and free
/// of the characters in `forbidden_in_password`.
pub fn validate_password(password: &str) -> (r: Result<(), ValidationError>)
    ensures
        match password_failure(password@) {
            None => r is Ok,
            Some(code) => r matches Err(e) && e@ == code,
        },
{
    let len = #[verifier::truncate] (password.len() as u8);
    if len > 20 || len < 3 {
        return Err(ValidationError { code: "Password must be between 3 and 20 characters long".to_owned() });
    }
    let chars = to_chars(password);
    let mut i: usize = 0;
    while i < chars.len()
        invariant
            chars@ == password@,
            password_length_ok(password@),
            i <= chars@.len(),
            forall|j: int| 0 <= j < i ==> !forbidden_in_password(#[trigger] chars@[j]),
        decreases chars@.len() - i,
    {
        if is_forbidden_in_password(chars[i]) {
            return Err(ValidationError { code: "Invalid character in password".to_owned() });
        }
        i = i + 1;
    }
    Ok(())
}

/// Whether `validator::validate_email` accepts `s` (the HTML5 e-mail syntax,
/// with length limits on both parts and internationalised domains).
pub uninterp spec fn email_valid(s: Seq<char>) -> bool;

/// Calls `validator::validate_email`. Its result is named `email_valid`; the
/// source also shows that it refuses every text without an `@`.
#[verifier::external_body]
pub fn check_email(s: &str) -> (b: bool)
    ensures
        b == email_valid(s@),
        b ==> s@.contains('@'),
{
    validator::validate_email(s)
}

} // verus!
