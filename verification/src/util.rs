//! Identifiers, random tokens and session cookies.
use rand::Rng;
use vstd::prelude::*;
use crate::error::AppError;
use crate::text::{push_char, string_of, to_chars, trim, trimmed, uuid_text, uuid_text_is_trimmed};

verus! {

/// Whether the version field of `id` says "random" (4) and its variant
/// field says RFC 4122, as in every UUID that `Uuid::new_v4` makes.
pub open spec fn is_random_uuid(id: u128) -> bool {
    &&& (id >> 76u128) & 0xfu128 == 4
    &&& (id >> 62u128) & 3u128 == 2
}

/// Calls `uuid::Uuid::new_v4` and gives the UUID as its 128-bit value. The
/// value is random: the contract states only the version and variant bits,
/// which the source sets on every result.
#[verifier::external_body]
pub fn new_uuid() -> (id: u128)
    ensures
        is_random_uuid(id),
{
    uuid::Uuid::new_v4().as_u128()
}

/// What `uuid::Uuid::parse_str` makes of a text: the UUID's 128-bit value,
/// or `None` when the text is not a UUID in one of the forms it reads.
pub uninterp spec fn uuid_parsed(s: Seq<char>) -> Option<u128>;

/// Calls `uuid::Uuid::parse_str`, whose result is named `uuid_parsed`. The
/// source reads the hyphenated form in either case, so the lower-case
/// hyphenated text of a UUID gives that UUID back.
#[verifier::external_body]
pub fn parse_uuid(s: &str) -> (r: Option<u128>)
    ensures
        r == uuid_parsed(s@),
        forall|x: u128| s@ == #[trigger] uuid_text(x) ==> r == Some(x),
{
    match uuid::Uuid::parse_str(s) {
        Ok(u) => Some(u.as_u128()),
        Err(_) => None,
    }
}

/// The random number generator of the running thread.
#[verifier::external_type_specification]
#[verifier::external_body]
pub struct ExThreadRng(rand::rngs::ThreadRng);

/// Calls `rand::thread_rng`.
#[verifier::external_body]
fn thread_rng() -> rand::rngs::ThreadRng {
    rand::thread_rng()
}

pub open spec fn is_ascii_alphanumeric(b: u8) -> bool {
    ||| 0x30 <= b <= 0x39
    ||| 0x41 <= b <= 0x5a
    ||| 0x61 <= b <= 0x7a
}

/// Calls `Rng::sample` with the `Alphanumeric` distribution. The byte is
/// random; the source draws it from `A`-`Z`, `a`-`z` and `0`-`9`.
#[verifier::external_body]
fn sample_alphanumeric(rng: &mut rand::rngs::ThreadRng) -> (b: u8)
    ensures
        is_ascii_alphanumeric(b),
{
    rng.sample(rand::distributions::Alphanumeric)
}

/// The number of characters in a reset token.
pub const TOKEN_LENGTH: usize = 16;

/// The text whose characters are the bytes of `bytes`, one for one.
pub fn token_from_bytes(bytes: &[u8]) -> (s: String)
    ensures
        s@ == bytes@.map_values(|b: u8| b as char),
{
    let mut s = String::new();
    let mut i: usize = 0;
    while i < bytes.len()
        invariant
            i <= bytes@.len(),
            s@ == bytes@.take(i as int).map_values(|b: u8| b as char),
        decreases bytes@.len() - i,
    {
        push_char(&mut s, bytes[i] as char);
        assert(bytes@.take(i + 1).map_values(|b: u8| b as char) =~= bytes@.take(i as int).map_values(
            |b: u8| b as char,
        ).push(bytes@[i as int] as char));
        i = i + 1;
    }
    assert(bytes@.take(bytes@.len() as int) =~= bytes@);
    s
}

/// An ASCII letter or digit.
pub open spec fn is_ascii_alphanumeric_char(c: char) -> bool {
    ||| '0' <= c && c <= '9'
    ||| 'A' <= c && c <= 'Z'
    ||| 'a' <= c && c <= 'z'
}

/// A random token of 16 ASCII letters and digits.
pub fn generate_token() -> (s: String)
    ensures
        s@.len() == TOKEN_LENGTH,
        forall|i: int| 0 <= i < s@.len() ==> is_ascii_alphanumeric_char(#[trigger] s@[i]),
{
    let mut rng = thread_rng();
    let mut bytes: Vec<u8> = Vec::new();
    let mut i: usize = 0;
    while i < TOKEN_LENGTH
        invariant
            i <= TOKEN_LENGTH,
            bytes@.len() == i,
            forall|j: int| 0 <= j < i ==> is_ascii_alphanumeric(#[trigger] bytes@[j]),
        decreases TOKEN_LENGTH - i,
    {
        let b = sample_alphanumeric(&mut rng);
        bytes.push(b);
        i = i + 1;
    }
    let s = token_from_bytes(bytes.as_slice());
    assert forall|i: int| 0 <= i < s@.len() implies is_ascii_alphanumeric_char(#[trigger] s@[i]) by {
        let b = bytes@[i];
        assert(s@[i] == b as char);
        assert(is_ascii_alphanumeric(b));
    }
    s
}

/// The value, or an error answered with `status` when there is none.
pub fn found_or<T>(found: Option<T>, status: u16) -> (r: Result<T, AppError>)
    ensures
        match found {
            Some(v) => r == Ok::<T, AppError>(v),
            None => r == Err::<T, AppError>(AppError::Status(status)),
        },
{
    match found {
        Some(v) => Ok(v),
        None => Err(AppError::Status(status)),
    }
}

/// The session that a request's `session_id` cookie names: what
/// `Uuid::parse_str` makes of the cookie's value without its surrounding
/// white space, or an error answered with 401 when there is no such cookie
/// or its value is not a UUID.
pub fn session_id_from_cookie(value: Option<&str>) -> (r: Result<u128, AppError>)
    ensures
        match value {
            None => r == Err::<u128, AppError>(AppError::Status(401)),
            Some(v) => match uuid_parsed(trimmed(v@)) {
                Some(id) => r == Ok::<u128, AppError>(id),
                None => r == Err::<u128, AppError>(AppError::Status(401)),
            },
        },
        forall|id: u128|
            value matches Some(v) && trimmed(v@) == #[trigger] uuid_text(id) ==> r == Ok::<
                u128,
                AppError,
            >(id),
        forall|id: u128|
            value matches Some(v) && v@ == #[trigger] uuid_text(id) ==> r == Ok::<u128, AppError>(
                id,
            ),
{
    match value {
        None => Err(AppError::Status(401)),
        Some(v) => {
            proof {
                assert forall|id: u128| v@ == #[trigger] uuid_text(id) implies trimmed(v@) == uuid_text(
                    id,
                ) by {
                    uuid_text_is_trimmed(id);
                }
            }
            let chars = to_chars(v);
            let t = trim(chars.as_slice());
            let text = string_of(t.as_slice(), 0, t.len());
            assert(t@.subrange(0, t@.len() as int) =~= t@);
            found_or(parse_uuid(text.as_str()), 401)
        },
    }
}

} // verus!
