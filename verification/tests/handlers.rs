use backend_core::errors::ApiError;
use backend_core::handlers::auth::{check_login, LoginRouteParams, MIN_PASSWORD_LENGTH};
use backend_core::handlers::user::get_base;
use backend_core::middleware::{Access, Auth, LOGIN_PATH};
use backend_core::models::user::{NewUser, User};
use backend_core::paginate::{get_pagination, paginate, PaginationRequest};

const PATH: &str = "/api/v1/user";
const SALT: &str = "0123456789abcdef";
const EMAIL_MESSAGE: &str = "email must be a valid email";
const PASSWORD_MESSAGE: &str = "password is required and must be at least 6 characters";

fn login(email: &str, password: &str) -> LoginRouteParams {
    LoginRouteParams { email: email.into(), password: password.into() }
}

#[test]
fn test_get_users() {
    assert_eq!(Auth.authorize(true, PATH), Access::Granted);
    let request = PaginationRequest { page: None, per_page: None };
    let pagination = request.resolve(2).unwrap();
    let users = vec!["Satoshi", "Hal"];
    let response = paginate(pagination, users, PATH.to_string());
    assert!(response.is_ok());
    let response = response.unwrap();
    assert_eq!(response.data, vec!["Satoshi", "Hal"]);
    assert_eq!(response.pagination, get_pagination(None, None, 2));
    assert_eq!(response.links.first(), "/api/v1/user?page=1&per_page=10");
}

#[test]
fn test_create_user() {
    assert_eq!(Auth.authorize(true, PATH), Access::Granted);
    let new_user = NewUser {
        id: "7a0c3ff5-3a0b-4ee2-a9d0-2a3f5f0d7c11".into(),
        first_name: "Satoshi".into(),
        last_name: "Nakamoto".into(),
        email: "satoshi@nakamotoinstitute.org".into(),
        password: "123456".into(),
    };
    let user = User::from_new(new_user, SALT);
    assert_eq!(user.first_name, "Satoshi");
    assert_eq!(user.last_name, "Nakamoto");
    assert_eq!(user.email, "satoshi@nakamotoinstitute.org");
    assert_eq!(user.id, "7a0c3ff5-3a0b-4ee2-a9d0-2a3f5f0d7c11");
    assert_eq!(user.password, backend_core::auth::hash("123456", SALT));
    assert_ne!(user.password, "123456");
}

#[test]
fn requests_without_login_are_denied() {
    assert_eq!(Auth.authorize(false, PATH), Access::Denied);
    assert_eq!(Auth.authorize(false, "/api/v1/auth/logout"), Access::Denied);
    assert_eq!(Auth.authorize(false, "/api/v1/auth/login/"), Access::Denied);
    assert_eq!(Auth.authorize(false, "/API/V1/AUTH/LOGIN"), Access::Denied);
    assert_eq!(Auth.authorize(false, ""), Access::Denied);
    assert_eq!(Auth.authorize(false, "/health"), Access::Denied);
}

#[test]
fn login_is_open_to_all() {
    assert_eq!(LOGIN_PATH, "/api/v1/auth/login");
    assert_eq!(Auth.authorize(false, LOGIN_PATH), Access::Granted);
    assert_eq!(Auth.authorize(true, LOGIN_PATH), Access::Granted);
    assert_eq!(Auth.authorize(true, ""), Access::Granted);
}

#[test]
fn valid_login_passes() {
    assert_eq!(login("satoshi@nakamotoinstitute.org", "123456").validate(), Ok(()));
    assert_eq!(login("a@b.co", "pass word, long").validate(), Ok(()));
}

#[test]
fn short_password_is_reported() {
    assert_eq!(MIN_PASSWORD_LENGTH, 6);
    assert_eq!(
        login("satoshi@nakamotoinstitute.org", "12345").validate(),
        Err(ApiError::ValidationError(vec![PASSWORD_MESSAGE.to_string()]))
    );
    assert_eq!(
        login("satoshi@nakamotoinstitute.org", "").validate(),
        Err(ApiError::ValidationError(vec![PASSWORD_MESSAGE.to_string()]))
    );
}

#[test]
fn password_length_counts_characters() {
    assert_eq!(login("a@b.co", "éééééé").validate(), Ok(()));
    assert_eq!(
        login("a@b.co", "ééééé").validate(),
        Err(ApiError::ValidationError(vec![PASSWORD_MESSAGE.to_string()]))
    );
}

#[test]
fn bad_email_is_reported() {
    for email in ["", "satoshi", "satoshi@", "@nakamotoinstitute.org", "a b@c.org"] {
        assert_eq!(
            login(email, "123456").validate(),
            Err(ApiError::ValidationError(vec![EMAIL_MESSAGE.to_string()]))
        );
    }
}

#[test]
fn both_rules_are_reported_in_order() {
    assert_eq!(
        login("nobody", "123").validate(),
        Err(ApiError::ValidationError(vec![
            EMAIL_MESSAGE.to_string(),
            PASSWORD_MESSAGE.to_string()
        ]))
    );
}

#[test]
fn check_login_goes_by_what_it_is_told() {
    assert_eq!(check_login(true, "123456"), Ok(()));
    assert_eq!(
        check_login(false, "123456"),
        Err(ApiError::ValidationError(vec![EMAIL_MESSAGE.to_string()]))
    );
    assert_eq!(
        check_login(true, "12345"),
        Err(ApiError::ValidationError(vec![PASSWORD_MESSAGE.to_string()]))
    );
    assert_eq!(
        check_login(false, "12345"),
        Err(ApiError::ValidationError(vec![
            EMAIL_MESSAGE.to_string(),
            PASSWORD_MESSAGE.to_string()
        ]))
    );
}

#[test]
fn validate_agrees_with_the_validator() {
    for email in ["email@here.com", "email@[127.0.0.1]", "a@b", "abc@", "x@x.x", "trailing@dot."] {
        let expected = validator::validate_email(email);
        assert_eq!(login(email, "123456").validate().is_ok(), expected);
    }
}

#[test]
fn base_is_scheme_host_and_path() {
    assert_eq!(get_base(Some("https"), "example.org", "/api/v1/user"), "https://example.org/api/v1/user");
    assert_eq!(get_base(None, "127.0.0.1:8000", "/path"), "http://127.0.0.1:8000/path");
    assert_eq!(get_base(None, "", ""), "http://");
    assert_eq!(get_base(Some(""), "h", "/"), "://h/");
}
