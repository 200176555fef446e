use std::time::Duration;

use goal_tracker::account::{after_delete_location, check_delete, DeleteForm};
use goal_tracker::auth::{
    check_credentials, check_email_free, create_user, login_checks, password_verdict,
    prepare_reset, redeem_reset, register_checks, reset_recipient, reset_link, reset_mail_subject, session_cookie,
    start_session, validate_login_form, validate_register_form, LoginForm, RegisterForm, ResetForm,
};
use goal_tracker::config::{Config, ConfigError};
use goal_tracker::error::AppError;
use goal_tracker::goals::{created_response, new_goal, CreateGoalForm};
use goal_tracker::model::{Reset, User};
use goal_tracker::scheduler::{Job, Message, Scheduler};
use goal_tracker::util::session_id_from_cookie;
use goal_tracker::validate::ValidationErrorsKind;
use goal_tracker::Messsage;

fn register_form(email: &str, password: &str) -> RegisterForm {
    RegisterForm {
        email: email.to_string(),
        first_name: "fname".to_string(),
        last_name: "lname".to_string(),
        password: password.to_string(),
    }
}

fn is_random_v4(id: u128) -> bool {
    uuid::Uuid::from_u128(id).get_version_num() == 4
        && uuid::Uuid::from_u128(id).get_variant() == uuid::Variant::RFC4122
}

fn codes(kind: &ValidationErrorsKind) -> Vec<String> {
    match kind {
        ValidationErrorsKind::Field(errors) => errors.iter().map(|e| e.code.clone()).collect(),
        _ => vec![],
    }
}

#[test]
fn it_works() {
    let (_sender, reciever) = std::sync::mpsc::channel();
    let mut scheduler = Scheduler { reciever, jobs: Vec::new() };
    scheduler.jobs.push(Job {
        repeat: Some(Duration::from_secs(5)),
        action: || println!("Hello World"),
    });
    assert_eq!(scheduler.jobs.len(), 1);
    assert_eq!(scheduler.jobs[0].repeat, Some(Duration::from_secs(5)));
    (scheduler.jobs[0].action)();
}

#[test]
fn scheduler_message_carries_a_job() {
    let (sender, reciever) = std::sync::mpsc::channel();
    let scheduler: Scheduler<fn()> = Scheduler { reciever, jobs: Vec::new() };
    fn noop() {}
    sender.send(Message::NewJob(Job { repeat: None, action: noop as fn() })).unwrap();
    match scheduler.reciever.recv().unwrap() {
        Message::NewJob(job) => assert!(job.repeat.is_none()),
    }
    assert!(matches!(Messsage::Testing, Messsage::Testing));
}

#[test]
fn register_form_from_the_docs_passes() {
    let form = register_form("testing@gmail.com", "password");
    assert!(validate_register_form(&form).is_ok());
}

#[test]
fn register_form_lists_each_failure() {
    let form = register_form("testing.gmail.com", "pw");
    match validate_register_form(&form) {
        Err(AppError::Validate(errors)) => {
            assert_eq!(errors.entries.len(), 2);
            assert_eq!(errors.entries[0].0, "email");
            assert_eq!(codes(&errors.entries[0].1), vec!["email".to_string()]);
            assert_eq!(errors.entries[1].0, "password");
            assert_eq!(
                codes(&errors.entries[1].1),
                vec!["Password must be between 3 and 20 characters long".to_string()]
            );
        }
        _ => panic!("expected a validation error"),
    }
    let form = register_form("testing@gmail.com", "pass@word");
    match validate_register_form(&form) {
        Err(AppError::Validate(errors)) => {
            assert_eq!(errors.entries.len(), 1);
            assert_eq!(errors.entries[0].0, "password");
            assert_eq!(codes(&errors.entries[0].1), vec!["Invalid character in password".to_string()]);
        }
        _ => panic!("expected a validation error"),
    }
}

#[test]
fn login_form_checks_the_address_only() {
    let ok = LoginForm { email: "testing@gmail.com".to_string(), password: "x".to_string() };
    assert!(validate_login_form(&ok).is_ok());
    let bad = LoginForm { email: "nobody".to_string(), password: "password".to_string() };
    match validate_login_form(&bad) {
        Err(AppError::Validate(errors)) => {
            assert_eq!(errors.entries.len(), 1);
            assert_eq!(errors.entries[0].0, "email");
            assert_eq!(codes(&errors.entries[0].1), vec!["email".to_string()]);
            let (status, body) = AppError::Validate(errors).into_response();
            assert_eq!(status, 400);
            assert_eq!(body, "email : \"email\\n\"");
        }
        _ => panic!("expected a validation error"),
    }
}

#[test]
fn taken_address_is_a_conflict() {
    assert!(check_email_free(0).is_ok());
    assert!(matches!(check_email_free(1), Err(AppError::Status(409))));
    assert!(matches!(check_email_free(-3), Err(AppError::Status(409))));
}

#[test]
fn registered_user_logs_in_with_its_password_only() {
    let user = create_user(register_form("testing@gmail.com", "password")).unwrap();
    assert_eq!(user.email, "testing@gmail.com");
    assert_eq!(user.first_name, "fname");
    assert_eq!(user.last_name, "lname");
    assert!(!user.admin);
    assert!(is_random_v4(user.id));
    assert_ne!(user.password, "password");
    let logged_in = check_credentials("password", Some(user.clone())).unwrap();
    assert_eq!(logged_in, user);
    assert!(matches!(
        check_credentials("passwort", Some(user.clone())),
        Err(AppError::Status(401))
    ));
}

#[test]
fn login_of_unknown_user_is_unauthorized() {
    assert!(matches!(check_credentials("password", None), Err(AppError::Status(401))));
}

#[test]
fn unreadable_hash_is_a_bcrypt_error() {
    let user = User {
        id: 1,
        email: "a@b.c".to_string(),
        first_name: String::new(),
        last_name: String::new(),
        password: "not a hash".to_string(),
        admin: false,
    };
    assert!(matches!(check_credentials("password", Some(user.clone())), Err(AppError::Bcrypt)));
    let form = DeleteForm { password: "password".to_string() };
    assert!(matches!(check_delete(Some(user), &form), Err(AppError::Bcrypt)));
}

#[test]
fn delete_needs_the_account_and_its_password() {
    let user = create_user(register_form("del@example.com", "secret")).unwrap();
    let right = DeleteForm { password: "secret".to_string() };
    let wrong = DeleteForm { password: "Secret".to_string() };
    assert!(matches!(check_delete(None, &right), Err(AppError::Status(404))));
    assert!(matches!(check_delete(Some(user.clone()), &wrong), Err(AppError::Status(401))));
    assert_eq!(check_delete(Some(user.clone()), &right).unwrap(), user);
    assert_eq!(after_delete_location(), "/");
}

#[test]
fn session_lasts_the_configured_days() {
    let s = start_session(7, 1_700_000_000, 123_456_789, 14).unwrap();
    assert_eq!(s.user_id, 7);
    assert_eq!(s.expires_at, 1_700_000_000 + 14 * 86400);
    assert_eq!(s.expires_at_nanos, 123_456_789);
    assert!(is_random_v4(s.id));
    assert!(start_session(7, u64::MAX - 10, 0, 1).is_none());
    assert!(start_session(7, 0, 0, u64::MAX / 86400 + 1).is_none());
    assert!(start_session(7, 0, 0, u64::MAX / 86400).is_some());
    let other = start_session(7, 1_700_000_000, 0, 14).unwrap();
    assert_ne!(s.id, other.id);
}

#[test]
fn session_cookie_names_its_session() {
    let s = start_session(9, 0, 0, 1).unwrap();
    let cookie = session_cookie(&s);
    assert_eq!(cookie.name, "session_id");
    assert_eq!(cookie.path, "/");
    assert!(cookie.http_only);
    assert_eq!(cookie.value, uuid::Uuid::from_u128(s.id).to_string());
    assert!(matches!(session_id_from_cookie(Some(&cookie.value)), Ok(id) if id == s.id));
}

#[test]
fn reset_of_unknown_address_is_not_found() {
    assert!(matches!(prepare_reset(None), Err(AppError::Status(404))));
}

#[test]
fn reset_gets_a_token_and_a_link() {
    let reset = prepare_reset(Some(5)).unwrap();
    assert_eq!(reset.user_id, 5);
    assert!(is_random_v4(reset.id));
    assert_eq!(reset.token.len(), 16);
    assert!(reset.token.chars().all(|c| c.is_ascii_alphanumeric()));
    let fixed = Reset {
        id: 0x67e5504410b1426f9247bb680e5fe0c8,
        user_id: 5,
        token: "AbC123xyz0987654".to_string(),
    };
    assert_eq!(
        reset_link("https://goals.example", &fixed),
        "https://goals.example/reset?token=AbC123xyz0987654&reset_id=67e55044-10b1-426f-9247-bb680e5fe0c8"
    );
    assert_eq!(reset_mail_subject(), "Password reset");
}

#[test]
fn reset_needs_the_token_and_sets_a_new_hash() {
    let stored = Reset { id: 3, user_id: 5, token: "AbC123xyz0987654".to_string() };
    let wrong = ResetForm { token: "AbC123xyz0987655".to_string(), reset_id: 3, password: "newpass".to_string() };
    assert!(matches!(redeem_reset(&stored, &wrong), Err(AppError::Status(401))));
    let right = ResetForm { token: "AbC123xyz0987654".to_string(), reset_id: 3, password: "newpass".to_string() };
    let hash = redeem_reset(&stored, &right).unwrap();
    let user = User {
        id: 5,
        email: "a@b.c".to_string(),
        first_name: String::new(),
        last_name: String::new(),
        password: hash,
        admin: false,
    };
    assert!(check_credentials("newpass", Some(user)).is_ok());
}

#[test]
fn goal_is_created_for_its_user() {
    let form = CreateGoalForm {
        title: "Workout".to_string(),
        description: "Work out at least once a week".to_string(),
    };
    let goal = new_goal(11, form);
    assert_eq!(goal.user_id, 11);
    assert_eq!(goal.title, "Workout");
    assert_eq!(goal.description, "Work out at least once a week");
    assert!(is_random_v4(goal.id));
    let (status, body) = created_response(&goal);
    assert_eq!(status, 201);
    assert_eq!(body, uuid::Uuid::from_u128(goal.id).to_string());
}

#[test]
fn config_reads_its_values() {
    let c = Config::from_values(Some("noreply@example.com"), Some("https://x".to_string()), None)
        .unwrap();
    assert_eq!(c.session_time, 14);
    assert_eq!(c.domain, "https://x");
    assert_eq!(c.email, "noreply@example.com");
    let c = Config::from_values(Some("noreply@example.com"), Some("d".to_string()), Some(" 7\n"))
        .unwrap();
    assert_eq!(c.session_time, 7);
    let c = Config::from_values(Some("noreply@example.com"), Some("d".to_string()), Some("+30"))
        .unwrap();
    assert_eq!(c.session_time, 30);
}

#[test]
fn config_errors_come_in_order() {
    let e = |a: Option<&str>, d: Option<&str>, s: Option<&str>| {
        Config::from_values(a, d.map(|d| d.to_string()), s).unwrap_err()
    };
    assert_eq!(e(None, None, Some("x")), ConfigError::MissingEmail);
    assert_eq!(e(Some("not an address"), None, None), ConfigError::InvalidEmail);
    assert_eq!(e(Some("a@example.com"), None, Some("x")), ConfigError::MissingDomain);
    assert_eq!(e(Some("a@example.com"), Some("d"), Some("-1")), ConfigError::InvalidSessionTime);
    assert_eq!(e(Some("a@example.com"), Some("d"), Some("")), ConfigError::InvalidSessionTime);
    assert_eq!(
        e(Some("a@example.com"), Some("d"), Some("18446744073709551616")),
        ConfigError::InvalidSessionTime
    );
    assert_eq!(ConfigError::MissingEmail.message(), "Could not load SMTP_EMAIL from env");
    assert_eq!(ConfigError::InvalidEmail.message(), "Failed to parse SMTP_EMAIL");
    assert_eq!(ConfigError::MissingDomain.message(), "Could not load DOMAIN");
    assert_eq!(ConfigError::InvalidSessionTime.message(), "Failed to parse SESSION_TIME");
}

fn plain_user(password: &str) -> User {
    User {
        id: 42,
        email: "a@b.c".to_string(),
        first_name: "f".to_string(),
        last_name: "l".to_string(),
        password: password.to_string(),
        admin: false,
    }
}

#[test]
fn password_verdict_decides_from_the_check() {
    assert!(matches!(password_verdict(plain_user("h"), None), Err(AppError::Bcrypt)));
    assert!(matches!(password_verdict(plain_user("h"), Some(false)), Err(AppError::Status(401))));
    assert_eq!(password_verdict(plain_user("h"), Some(true)).unwrap(), plain_user("h"));
}

#[test]
fn form_checks_take_the_address_verdict() {
    let form = register_form("whatever", "password");
    assert!(register_checks(&form, true).is_ok());
    match register_checks(&form, false) {
        Err(AppError::Validate(errors)) => {
            assert_eq!(errors.entries.len(), 1);
            assert_eq!(errors.entries[0].0, "email");
            assert_eq!(codes(&errors.entries[0].1), vec!["email".to_string()]);
        }
        _ => panic!("expected a validation error"),
    }
    assert!(login_checks(true).is_ok());
    assert!(matches!(login_checks(false), Err(AppError::Validate(e)) if e.entries.len() == 1));
}

#[test]
fn config_assembles_from_a_read_address() {
    let c = Config::assemble("noreply@example.com", true, Some("d".to_string()), None).unwrap();
    assert_eq!(c.session_time, 14);
    assert_eq!(c.email, "noreply@example.com");
    assert_eq!(
        Config::assemble("noreply@example.com", false, Some("d".to_string()), None).unwrap_err(),
        ConfigError::InvalidEmail
    );
    assert_eq!(
        Config::assemble("noreply@example.com", true, None, None).unwrap_err(),
        ConfigError::MissingDomain
    );
}

#[test]
fn reset_recipient_must_be_a_mailbox() {
    let to = reset_recipient("testing@gmail.com").unwrap();
    assert_eq!(to, (None, "testing@gmail.com".to_string()));
    let to = reset_recipient("Some One <one@example.com>").unwrap();
    assert_eq!(to, (Some("Some One".to_string()), "one@example.com".to_string()));
    assert!(matches!(reset_recipient("not an address"), Err(AppError::Status(400))));
}
