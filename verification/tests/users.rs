use gis_server::hashing::hash_pw;
use gis_server::jwt::{AuthConfig, TokenService};
use gis_server::models::{Role, User};
use gis_server::response::{Body, Status};
use gis_server::users::{login_refused, login_reply, login_user, register_reply, register_role, try_login_user, users_reply};

const SALT: &str = "c29tZXNhbHRzb21lc2FsdA";

fn user(pw: &str) -> User {
    User { id: 1, name: "ann".to_string(), role: Role::USER, password: hash_pw(pw.to_string(), SALT) }
}

#[test]
fn login_with_the_right_password() {
    let r = login_user("pw".to_string(), SALT, Ok(user("pw")));
    assert_eq!(r.map(|u| u.id), Ok(1));
}

#[test]
fn login_with_a_wrong_password_or_unknown_user() {
    assert_eq!(login_user("bad".to_string(), SALT, Ok(user("pw"))).map(|u| u.id), Err("wrong password".to_string()));
    assert_eq!(login_user("pw".to_string(), SALT, Err("no rows".to_string())).map(|u| u.id), Err("no rows".to_string()));
    assert!(try_login_user("pw".to_string(), "abcd", Ok(user("pw"))).is_none());
    assert_eq!(try_login_user("pw".to_string(), SALT, Ok(user("pw"))).map(|r| r.map(|u| u.id)), Some(Ok(1)));
}

#[test]
fn login_answers() {
    let service = TokenService::new(&AuthConfig::from_secret("k".to_string()));
    let r = login_reply(Ok(service.token_pair("a".to_string(), "b".to_string())));
    assert_eq!(r.status, Status::Success);
    assert!(matches!(r.body, Body::Tokens(ref p) if p.expires_in == 3600));
    let r = login_reply(Err("Encoding of Token failed!".to_string()));
    assert_eq!(r.status, Status::Forbidden);
    assert!(matches!(r.body, Body::Message(ref m) if m == "Encoding of Token failed!"));
    assert_eq!(login_refused("x".to_string()).status, Status::Forbidden);
}

#[test]
fn registration_role_defaults_to_user() {
    assert_eq!(register_role(None), Role::USER);
    assert_eq!(register_role(Some(Role::ADMIN)), Role::ADMIN);
}

#[test]
fn registration_answers() {
    let r = register_reply(Ok(0));
    assert_eq!(r.status, Status::BadRequest);
    assert!(matches!(r.body, Body::Outcome { success: false, msg: Some(ref m) } if m == "user with name exists"));
    let r = register_reply(Ok(1));
    assert_eq!(r.status, Status::Success);
    assert!(matches!(r.body, Body::Empty));
    assert_eq!(register_reply(Err(())).status, Status::InternalServerError);
}

#[test]
fn user_listing_answers() {
    assert_eq!(users_reply(Ok(vec![user("p")])).status, Status::Success);
    assert_eq!(users_reply(Err(())).status, Status::InternalServerError);
}

#[test]
fn registration_stores_the_hashed_password() {
    let body = gis_server::models::CreateUser { name: "bob".to_string(), role: None, password: "pw".to_string() };
    let u = gis_server::users::register_user(body, SALT);
    assert_eq!(u.name, "bob");
    assert_eq!(u.role, Role::USER);
    assert_eq!(u.password_hash, hash_pw("pw".to_string(), SALT));
    let body = gis_server::models::CreateUser { name: "root".to_string(), role: Some(Role::ADMIN), password: "pw".to_string() };
    assert!(gis_server::users::try_register_user(body, "abcd").is_none());
    let body = gis_server::models::CreateUser { name: "root".to_string(), role: Some(Role::ADMIN), password: "pw".to_string() };
    assert_eq!(gis_server::users::try_register_user(body, SALT).map(|u| u.role), Some(Role::ADMIN));
}
