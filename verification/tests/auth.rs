use gis_server::auth::{admin_roles, get_jwt, get_jwt_from_token, get_token_from_header, has_role, member_roles};
use gis_server::jwt::Jwt;
use gis_server::models::Role;
use gis_server::response::Status;

#[test]
fn bearer_token_is_taken_from_the_header() {
    assert_eq!(get_token_from_header(Some(b"Bearer abc.def.ghi")), Some("abc.def.ghi".to_string()));
    assert_eq!(get_token_from_header(Some(b"Bearer ")), Some(String::new()));
    assert_eq!(get_token_from_header(Some(b"Bearer a\tb")), Some("a\tb".to_string()));
}

#[test]
fn headers_without_a_bearer_token_give_none() {
    assert_eq!(get_token_from_header(None), None);
    assert_eq!(get_token_from_header(Some(b"Basic abc")), None);
    assert_eq!(get_token_from_header(Some(b"bearer abc")), None);
    assert_eq!(get_token_from_header(Some(b"Bearer")), None);
    assert_eq!(get_token_from_header(Some(b"Bearer abc\x7f")), None);
    assert_eq!(get_token_from_header(Some("Bearer \u{e9}".as_bytes())), None);
    assert_eq!(get_token_from_header(Some(b"Bearer a\nb")), None);
}

#[test]
fn role_lists() {
    assert!(has_role(&admin_roles(), Role::ADMIN));
    assert!(!has_role(&admin_roles(), Role::USER));
    assert!(has_role(&member_roles(), Role::USER));
    assert!(has_role(&member_roles(), Role::ADMIN));
    assert!(!has_role(&Vec::new(), Role::ADMIN));
}

#[test]
fn checked_claims_are_kept_and_refusals_dropped() {
    let j = Jwt::new_at(4, Role::USER, 10, 0);
    assert_eq!(get_jwt_from_token(Ok(j)).map(|c| c.user), Some(4));
    assert!(get_jwt_from_token(Err("Token Validation failed!".to_string())).is_none());
}

fn user_claims(role: Role) -> impl Fn(String) -> Option<Jwt> {
    move |t: String| if t == "good" { Some(Jwt::new_at(11, role, 10, 0)) } else { None }
}

#[test]
fn requests_with_an_allowed_role_are_granted() {
    let r = get_jwt(Some(b"Bearer good"), &member_roles(), user_claims(Role::USER));
    assert_eq!(r.map(|j| j.user).ok(), Some(11));
    let r = get_jwt(Some(b"Bearer good"), &admin_roles(), user_claims(Role::ADMIN));
    assert_eq!(r.map(|j| j.user).ok(), Some(11));
}

#[test]
fn other_requests_are_forbidden() {
    for (header, roles, role) in [
        (None, member_roles(), Role::USER),
        (Some(&b"Token good"[..]), member_roles(), Role::USER),
        (Some(&b"Bearer bad"[..]), member_roles(), Role::USER),
        (Some(&b"Bearer good"[..]), admin_roles(), Role::USER),
    ] {
        match get_jwt(header, &roles, user_claims(role)) {
            Ok(_) => panic!("granted"),
            Err(resp) => assert_eq!(resp.status, Status::Forbidden),
        }
    }
}
