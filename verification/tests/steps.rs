use goal_tracker::account::{delete_steps, DeleteForm};
use goal_tracker::auth::{
    create_user, login_steps, redeem_steps, register_steps, reset_request_steps, RegisterForm,
    ResetForm,
};
use goal_tracker::error::AppError;
use goal_tracker::goals::{create_goal_steps, CreateGoalForm};
use goal_tracker::model::Reset;
use goal_tracker::steps::Step;
use goal_tracker::util::session_id_from_cookie;

fn form(email: &str, password: &str) -> RegisterForm {
    RegisterForm {
        email: email.to_string(),
        first_name: "fname".to_string(),
        last_name: "lname".to_string(),
        password: password.to_string(),
    }
}

#[test]
fn register_steps_insert_then_answer_201() {
    let steps = register_steps(form("testing@gmail.com", "password"), 0);
    assert_eq!(steps.len(), 2);
    match &steps[0] {
        Step::InsertUser(u) => {
            assert_eq!(u.email, "testing@gmail.com");
            assert_eq!(u.password.len(), 60);
            assert!(u.password.starts_with("$2b$12$"));
            assert_ne!(u.password, "password");
        }
        _ => panic!("expected the insert"),
    }
    assert!(matches!(&steps[1], Step::Answer(201, b) if b.is_empty()));
}

#[test]
fn register_steps_of_a_taken_address_write_nothing() {
    let steps = register_steps(form("testing@gmail.com", "password"), 1);
    assert_eq!(steps.len(), 1);
    assert!(matches!(&steps[0], Step::Fail(AppError::Status(409))));
}

#[test]
fn login_steps_open_a_session_and_set_its_cookie() {
    let user = create_user(form("testing@gmail.com", "password")).unwrap();
    let steps = login_steps("password", Some(user.clone()), 1_000, 5, 14).unwrap();
    assert_eq!(steps.len(), 3);
    let session_id = match &steps[0] {
        Step::InsertSession(s) => {
            assert_eq!(s.user_id, user.id);
            assert_eq!(s.expires_at, 1_000 + 14 * 86400);
            assert_eq!(s.expires_at_nanos, 5);
            s.id
        }
        _ => panic!("expected the session"),
    };
    match &steps[1] {
        Step::SetCookie(c) => {
            assert_eq!(c.name, "session_id");
            assert_eq!(c.path, "/");
            assert!(c.http_only);
            assert!(matches!(session_id_from_cookie(Some(&c.value)), Ok(id) if id == session_id));
        }
        _ => panic!("expected the cookie"),
    }
    assert!(matches!(&steps[2], Step::Answer(200, _)));
    let steps = login_steps("wrong", Some(user.clone()), 1_000, 0, 14).unwrap();
    assert_eq!(steps.len(), 1);
    assert!(matches!(&steps[0], Step::Fail(AppError::Status(401))));
    let steps = login_steps("password", None, 1_000, 0, 14).unwrap();
    assert_eq!(steps.len(), 1);
    assert!(matches!(&steps[0], Step::Fail(AppError::Status(401))));
}

#[test]
fn login_steps_refuse_before_the_session_length_matters() {
    let user = create_user(form("long@example.com", "password")).unwrap();
    // A wrong password is answered with 401 whatever the session length.
    let steps = login_steps("wrong", Some(user.clone()), u64::MAX, 0, u64::MAX).unwrap();
    assert!(steps.len() == 1 && matches!(&steps[0], Step::Fail(AppError::Status(401))));
    let steps = login_steps("password", None, u64::MAX, 0, u64::MAX).unwrap();
    assert!(steps.len() == 1 && matches!(&steps[0], Step::Fail(AppError::Status(401))));
    // A right password with a session end past 64 bits cannot go on.
    assert!(login_steps("password", Some(user), u64::MAX, 0, 1).is_none());
}

#[test]
fn reset_request_steps_insert_then_mail() {
    let steps = reset_request_steps(Some(1), "a@b.com", "noreply@x.io", "https://x.io");
    assert_eq!(steps.len(), 3);
    let (id, token) = match &steps[0] {
        Step::InsertReset(r) => {
            assert_eq!(r.user_id, 1);
            assert_eq!(r.token.len(), 16);
            assert!(r.token.chars().all(|c| c.is_ascii_alphanumeric()));
            (r.id, r.token.clone())
        }
        _ => panic!("expected the reset"),
    };
    match &steps[1] {
        Step::SendMail(m) => {
            assert_eq!(m.from, "noreply@x.io");
            assert_eq!(m.content_type, "text/plain; charset=utf-8");
            assert_eq!(
                lettre::message::header::ContentType::parse(&m.content_type).unwrap(),
                lettre::message::header::ContentType::TEXT_PLAIN
            );
            assert_eq!(m.to_name, None);
            assert_eq!(m.to_address, "a@b.com");
            assert_eq!(m.subject, "Password reset");
            assert_eq!(
                m.body,
                format!("https://x.io/reset?token={}&reset_id={}", token, uuid::Uuid::from_u128(id))
            );
        }
        _ => panic!("expected the mail"),
    }
    assert!(matches!(&steps[2], Step::Answer(200, _)));
}

#[test]
fn reset_request_steps_insert_before_refusing_the_address() {
    let steps = reset_request_steps(Some(1), "not an address", "noreply@x.io", "https://x.io");
    assert_eq!(steps.len(), 2);
    assert!(matches!(&steps[0], Step::InsertReset(_)));
    assert!(matches!(&steps[1], Step::Fail(AppError::Status(400))));
    let steps = reset_request_steps(None, "a@b.com", "noreply@x.io", "https://x.io");
    assert_eq!(steps.len(), 1);
    assert!(matches!(&steps[0], Step::Fail(AppError::Status(404))));
}

#[test]
fn redeem_steps_store_the_hash_then_delete_the_reset() {
    let stored = Reset { id: 3, user_id: 5, token: "AbC123xyz0987654".to_string() };
    let wrong = ResetForm { token: "x".to_string(), reset_id: 3, password: "newpass".to_string() };
    let steps = redeem_steps(&stored, &wrong);
    assert_eq!(steps.len(), 1);
    assert!(matches!(&steps[0], Step::Fail(AppError::Status(401))));
    let right = ResetForm {
        token: "AbC123xyz0987654".to_string(),
        reset_id: 3,
        password: "newpass".to_string(),
    };
    let steps = redeem_steps(&stored, &right);
    assert_eq!(steps.len(), 3);
    assert!(matches!(&steps[0], Step::SetEveryPassword(h) if h.starts_with("$2b$12$") && h.len() == 60));
    assert!(matches!(&steps[1], Step::DeleteReset(3)));
    assert!(matches!(&steps[2], Step::Answer(200, _)));
}

#[test]
fn delete_steps_remove_everything_of_the_account() {
    let user = create_user(form("del@example.com", "secret")).unwrap();
    let id = user.id;
    let right = DeleteForm { password: "secret".to_string() };
    let steps = delete_steps(Some(user.clone()), &right);
    assert_eq!(steps.len(), 4);
    assert!(matches!(&steps[0], Step::DeleteSessionsOf(x) if *x == id));
    assert!(matches!(&steps[1], Step::DeleteResetsOf(x) if *x == id));
    assert!(matches!(&steps[2], Step::DeleteUser(x) if *x == id));
    assert!(matches!(&steps[3], Step::Redirect(l) if l == "/"));
    let wrong = DeleteForm { password: "Secret".to_string() };
    let steps = delete_steps(Some(user), &wrong);
    assert!(steps.len() == 1 && matches!(&steps[0], Step::Fail(AppError::Status(401))));
    let steps = delete_steps(None, &right);
    assert!(steps.len() == 1 && matches!(&steps[0], Step::Fail(AppError::Status(404))));
}

#[test]
fn create_goal_steps_insert_then_answer_with_the_id() {
    let form = CreateGoalForm { title: "Workout".to_string(), description: "Weekly".to_string() };
    let steps = create_goal_steps(7, form);
    assert_eq!(steps.len(), 2);
    let id = match &steps[0] {
        Step::InsertGoal(g) => {
            assert_eq!(g.user_id, 7);
            assert_eq!(g.title, "Workout");
            g.id
        }
        _ => panic!("expected the goal"),
    };
    assert!(matches!(&steps[1], Step::Answer(201, body) if *body == uuid::Uuid::from_u128(id).to_string()));
}
