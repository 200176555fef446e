use goal_tracker::error::{AppError, DieselError};
use goal_tracker::text::{parse_u64, trim, uuid_string};
use goal_tracker::util::{found_or, generate_token, session_id_from_cookie};
use goal_tracker::validate::{
    check_email, validate_password, ValidationError, ValidationErrors, ValidationErrorsKind,
};
use goal_tracker::error::display_validation_error;

const LENGTH_MESSAGE: &str = "Password must be between 3 and 20 characters long";
const CHARACTER_MESSAGE: &str = "Invalid character in password";

fn chars(s: &str) -> Vec<char> {
    s.chars().collect()
}

#[test]
fn password_of_three_to_twenty_bytes_passes() {
    assert!(validate_password("abc").is_ok());
    assert!(validate_password("abcdefghij0123456789").is_ok());
    assert!(validate_password("pass word.?").is_ok());
}

#[test]
fn password_too_short_or_too_long_is_refused() {
    for p in ["", "ab", "abcdefghij0123456789x"] {
        match validate_password(p) {
            Err(e) => assert_eq!(e.code, LENGTH_MESSAGE),
            Ok(()) => panic!("accepted {:?}", p),
        }
    }
}

#[test]
fn password_length_counts_bytes_modulo_256() {
    // 259 bytes count as 3.
    let long = "a".repeat(259);
    assert!(validate_password(&long).is_ok());
    // 256 bytes count as 0.
    let zero = "a".repeat(256);
    assert_eq!(validate_password(&zero).unwrap_err().code, LENGTH_MESSAGE);
    // 'é' takes two bytes.
    assert_eq!(validate_password("é").unwrap_err().code, LENGTH_MESSAGE);
    assert!(validate_password("éé").is_ok());
}

#[test]
fn password_with_forbidden_character_is_refused() {
    for p in ["abc@", "a-bc", "£abc", "x¬yz", "pa$$", "(abc)", "a\"bc", "ab`c"] {
        match validate_password(p) {
            Err(e) => assert_eq!(e.code, CHARACTER_MESSAGE),
            Ok(()) => panic!("accepted {:?}", p),
        }
    }
}

#[test]
fn length_rule_is_checked_before_characters() {
    assert_eq!(validate_password("@").unwrap_err().code, LENGTH_MESSAGE);
}

#[test]
fn email_check_follows_validator() {
    assert!(check_email("testing@gmail.com"));
    assert!(!check_email("testing.gmail.com"));
    assert!(!check_email(""));
    assert!(!check_email("a@"));
}

#[test]
fn trim_removes_unicode_white_space() {
    assert_eq!(trim(&chars("  abc \t\n")), chars("abc"));
    assert_eq!(trim(&chars("\u{3000}x y\u{a0}")), chars("x y"));
    assert_eq!(trim(&chars(" \t ")), Vec::<char>::new());
    assert_eq!(trim(&chars("a")), chars("a"));
}

#[test]
fn parse_u64_reads_like_std() {
    for s in ["0", "14", "+7", "007", "18446744073709551615", "18446744073709551616", "", "+",
        "-1", " 1", "1 ", "1a", "++1"] {
        assert_eq!(parse_u64(&chars(s)), s.parse::<u64>().ok(), "{:?}", s);
    }
    assert_eq!(parse_u64(&chars("14")), Some(14));
}

#[test]
fn uuid_string_is_hyphenated_lower_case() {
    assert_eq!(
        uuid_string(0x67e5504410b1426f9247bb680e5fe0c8),
        "67e55044-10b1-426f-9247-bb680e5fe0c8"
    );
    assert_eq!(uuid_string(0), "00000000-0000-0000-0000-000000000000");
    assert_eq!(uuid_string(u128::MAX), "ffffffff-ffff-ffff-ffff-ffffffffffff");
    let id = 0x0123456789abcdef0011223344556677u128;
    assert_eq!(uuid_string(id), uuid::Uuid::from_u128(id).to_string());
}

#[test]
fn generate_token_gives_sixteen_letters_and_digits() {
    let a = generate_token();
    let b = generate_token();
    assert_eq!(a.chars().count(), 16);
    assert!(a.chars().all(|c| c.is_ascii_alphanumeric()));
    assert!(b.chars().all(|c| c.is_ascii_alphanumeric()));
    assert_eq!(a.len(), 16);
}

#[test]
fn session_cookie_value_is_parsed() {
    assert!(matches!(session_id_from_cookie(None), Err(AppError::Status(401))));
    let id = 0x67e5504410b1426f9247bb680e5fe0c8u128;
    let r = session_id_from_cookie(Some("  67e55044-10b1-426f-9247-bb680e5fe0c8 "));
    assert!(matches!(r, Ok(x) if x == id));
    let r = session_id_from_cookie(Some("67E5504410B1426F9247BB680E5FE0C8"));
    assert!(matches!(r, Ok(x) if x == id));
    assert!(matches!(session_id_from_cookie(Some("not-a-uuid")), Err(AppError::Status(401))));
    assert!(matches!(session_id_from_cookie(Some("")), Err(AppError::Status(401))));
}

#[test]
fn found_or_gives_the_status_when_missing() {
    assert!(matches!(found_or(Some(3), 404), Ok(3)));
    assert!(matches!(found_or::<u8>(None, 404), Err(AppError::Status(404))));
    assert!(matches!(found_or::<u8>(None, 401), Err(AppError::Status(401))));
}

fn field(name: &str, codes: &[&str]) -> (String, ValidationErrorsKind) {
    (
        name.to_string(),
        ValidationErrorsKind::Field(
            codes.iter().map(|c| ValidationError { code: c.to_string() }).collect(),
        ),
    )
}

#[test]
fn display_validation_error_shows_the_first_code() {
    let (_, kind) = field("email", &["email", "other"]);
    assert_eq!(display_validation_error(&kind), "email\n");
    let (_, kind) = field("email", &[]);
    assert_eq!(display_validation_error(&kind), "");
    assert_eq!(display_validation_error(&ValidationErrorsKind::Struct), "");
    assert_eq!(display_validation_error(&ValidationErrorsKind::List), "");
}

#[test]
fn errors_are_answered_with_their_status() {
    assert_eq!(AppError::Status(404).into_response(), (404, String::new()));
    assert_eq!(AppError::from(418u16).into_response(), (418, String::new()));
    assert_eq!(AppError::Diesel(DieselError::UniqueViolation).into_response().0, 409);
    assert_eq!(AppError::Diesel(DieselError::NotFound).into_response().0, 500);
    assert_eq!(AppError::Diesel(DieselError::Other).into_response().0, 500);
    assert_eq!(AppError::Bb8.into_response().0, 500);
    assert_eq!(AppError::Lettre.into_response().0, 500);
    assert_eq!(AppError::Bcrypt.into_response().0, 500);
}

#[test]
fn validation_error_is_answered_with_400_and_the_codes() {
    let errors = ValidationErrors {
        entries: vec![field("email", &["email"]), field("password", &[CHARACTER_MESSAGE])],
    };
    let (status, body) = AppError::Validate(errors).into_response();
    assert_eq!(status, 400);
    assert_eq!(
        body,
        "email : \"email\\n\"password : \"Invalid character in password\\n\""
    );
    let errors = ValidationErrors { entries: vec![("nested".to_string(), ValidationErrorsKind::Struct)] };
    assert_eq!(AppError::Validate(errors).into_response(), (400, "nested : \"\"".to_string()));
}

#[test]
fn error_messages() {
    assert_eq!(AppError::Bb8.message(), "Db connection errorr");
    assert_eq!(AppError::Diesel(DieselError::Other).message(), "Database error");
    assert_eq!(AppError::Lettre.message(), "Lettre errror");
    assert_eq!(AppError::Bcrypt.message(), "Bcrypt error");
    assert_eq!(AppError::Status(401).message(), "Just some status code");
    assert_eq!(
        AppError::Validate(ValidationErrors { entries: vec![] }).message(),
        "Failed to validate input"
    );
}
