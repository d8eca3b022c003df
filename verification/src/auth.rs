//! Who may make a request: the bearer token of the `Authorization` header,
//! and the role that the token's claims give.

use vstd::prelude::*;
use crate::jwt::{access_typ, access_verdict, Jwt};
use crate::models::Role;
use crate::response::{Response, Status};

verus! {

/// Whether `b` may stand in a header value that is read as text: visible
/// ASCII or a tab.
pub open spec fn is_visible_ascii(b: u8) -> bool {
    (32 <= b && b < 127) || b == 9
}

/// The bytes of `Bearer ` (with its trailing space).
pub open spec fn bearer_prefix() -> Seq<u8> {
    seq![66u8, 101u8, 97u8, 114u8, 101u8, 114u8, 32u8]
}

/// ASCII bytes read as characters.
pub open spec fn ascii_text(bytes: Seq<u8>) -> Seq<char> {
    bytes.map_values(|b: u8| b as char)
}

/// The bytes of an optional header value.
pub open spec fn header_bytes(header: Option<&[u8]>) -> Option<Seq<u8>> {
    match header {
        Some(h) => Some(h@),
        None => None,
    }
}

/// The token that a request carries in its `Authorization` header: the
/// header's text after `Bearer `, where the header is present, all of it
/// visible ASCII (as actix's `HeaderValue::to_str` requires) and begins with
/// `Bearer `.
pub open spec fn bearer_token(header: Option<Seq<u8>>) -> Option<Seq<char>> {
    match header {
        None => None,
        Some(h) => if (forall|i: int| 0 <= i < h.len() ==> is_visible_ascii(#[trigger] h[i]))
            && h.len() >= 7 && h.take(7) == bearer_prefix() {
            Some(ascii_text(h.skip(7)))
        } else {
            None
        },
    }
}

/// A header made of `Bearer ` and a visible ASCII token yields that token.
pub proof fn lemma_bearer_header_yields_token(t: Seq<u8>)
    requires
        forall|i: int| 0 <= i < t.len() ==> is_visible_ascii(#[trigger] t[i]),
    ensures
        bearer_token(Some(bearer_prefix() + t)) == Some(ascii_text(t)),
{
    let h = bearer_prefix() + t;
    assert(h.take(7) =~= bearer_prefix());
    assert(h.skip(7) =~= t);
    assert forall|i: int| 0 <= i < h.len() implies is_visible_ascii(#[trigger] h[i]) by {
        if i >= 7 {
            assert(h[i] == t[i - 7]);
        }
    }
}

/// `String::push`: appends `c`.
#[verifier::external_body]
fn string_push(s: &mut String, c: char)
    ensures
        final(s)@ == old(s)@.push(c),
{
    s.push(c);
}

fn is_visible_byte(b: u8) -> (r: bool)
    ensures
        r == is_visible_ascii(b),
{
    (32 <= b && b < 127) || b == 9
}

fn has_bearer_prefix(h: &[u8]) -> (r: bool)
    ensures
        r == (h@.len() >= 7 && h@.take(7) == bearer_prefix()),
{
    if h.len() < 7 {
        return false;
    }
    let r = h[0] == 66u8 && h[1] == 101u8 && h[2] == 97u8 && h[3] == 114u8 && h[4] == 101u8
        && h[5] == 114u8 && h[6] == 32u8;
    assert(r ==> h@.take(7) =~= bearer_prefix());
    assert(h@.take(7) == bearer_prefix() ==> h@.take(7)[0] == 66u8 && h@.take(7)[1] == 101u8
        && h@.take(7)[2] == 97u8 && h@.take(7)[3] == 114u8 && h@.take(7)[4] == 101u8
        && h@.take(7)[5] == 114u8 && h@.take(7)[6] == 32u8);
    r
}

/// The bearer token of a request, from the value of its `Authorization`
/// header (`None` where it has none).
pub fn get_token_from_header(header: Option<&[u8]>) -> (r: Option<String>)
    ensures
        match r {
            Some(t) => bearer_token(header_bytes(header)) == Some(t@),
            None => bearer_token(header_bytes(header)) is None,
        },
{
    let h = match header {
        Some(h) => h,
        None => return None,
    };
    assert(header_bytes(header) == Some(h@));
    let mut i: usize = 0;
    while i < h.len()
        invariant
            i <= h@.len(),
            header_bytes(header) == Some(h@),
            forall|j: int| 0 <= j < i ==> is_visible_ascii(#[trigger] h@[j]),
        decreases h@.len() - i,
    {
        if !is_visible_byte(h[i]) {
            assert(!is_visible_ascii(h@[i as int]));
            assert(!(forall|j: int| 0 <= j < h@.len() ==> is_visible_ascii(#[trigger] h@[j])));
            return None;
        }
        i = i + 1;
    }
    if !has_bearer_prefix(h) {
        return None;
    }
    let mut token = String::new();
    let mut k: usize = 7;
    while k < h.len()
        invariant
            7 <= k <= h@.len(),
            token@ == ascii_text(h@.subrange(7, k as int)),
        decreases h@.len() - k,
    {
        string_push(&mut token, h[k] as char);
        assert(h@.subrange(7, k + 1) =~= h@.subrange(7, k as int).push(h@[k as int]));
        assert(ascii_text(h@.subrange(7, k + 1)) =~= ascii_text(h@.subrange(7, k as int)).push(
            h@[k as int] as char,
        ));
        k = k + 1;
    }
    assert(h@.subrange(7, h@.len() as int) =~= h@.skip(7));
    Some(token)
}

/// The claims of a checked token, or `None` where the check refused it.
pub fn get_jwt_from_token(validated: Result<Jwt, String>) -> (r: Option<Jwt>)
    ensures
        match validated {
            Ok(j) => r == Some(j),
            Err(_) => r is None,
        },
{
    match validated {
        Ok(j) => Some(j),
        Err(_) => None,
    }
}

/// The claims that a decoded token yields once checked as an access token.
pub open spec fn access_claims_yielded(decoded: Result<Jwt, ()>) -> Option<Jwt> {
    match access_verdict(decoded) {
        Ok(j) => Some(j),
        Err(_) => None,
    }
}

/// Only claims of type `access` are yielded by the access check.
pub proof fn lemma_yielded_claims_are_access(decoded: Result<Jwt, ()>, j: Jwt)
    requires
        access_claims_yielded(decoded) == Some(j),
    ensures
        j.typ@ == access_typ(),
        decoded == Ok::<Jwt, ()>(j),
{
}

/// Handlers reserved to administrators refuse the role `USER`.
pub proof fn lemma_admin_roles_refuse_users()
    ensures
        !admins().contains(Role::USER),
        admins().contains(Role::ADMIN),
        members().contains(Role::USER),
        members().contains(Role::ADMIN),
{
    assert(admins()[0] == Role::ADMIN);
    assert(members()[1] == Role::USER);
    assert(members()[0] == Role::ADMIN);
}

/// Whether `role` is one of `roles`.
pub fn has_role(roles: &Vec<Role>, role: Role) -> (r: bool)
    ensures
        r == roles@.contains(role),
{
    let mut i: usize = 0;
    while i < roles.len()
        invariant
            i <= roles@.len(),
            forall|j: int| 0 <= j < i ==> #[trigger] roles@[j] != role,
        decreases roles@.len() - i,
    {
        if roles[i] == role {
            assert(roles@[i as int] == role);
            return true;
        }
        i = i + 1;
    }
    false
}

/// The roles that may call the handlers reserved to administrators.
pub open spec fn admins() -> Seq<Role> {
    seq![Role::ADMIN]
}

/// The roles that may call the handlers open to every user.
pub open spec fn members() -> Seq<Role> {
    seq![Role::ADMIN, Role::USER]
}

/// The roles of the handlers that only administrators may call.
pub fn admin_roles() -> (r: Vec<Role>)
    ensures
        r@ == admins(),
{
    let mut r = Vec::new();
    r.push(Role::ADMIN);
    r
}

/// The roles of the handlers that any user may call.
pub fn member_roles() -> (r: Vec<Role>)
    ensures
        r@ == members(),
{
    let mut r = Vec::new();
    r.push(Role::ADMIN);
    r.push(Role::USER);
    r
}

/// Whether `r` is the refusal of a request: `403 Forbidden`, empty.
pub open spec fn is_forbidden(r: Response) -> bool {
    r.status == Status::Forbidden && r.body is Empty
}

/// Whether a request with the `Authorization` header `header` may be
/// granted the claims `j` for a handler open to `roles`: the header carries
/// a bearer token for which `jwt_from_token` gives `j`, whose role is one of
/// `roles`.
pub open spec fn grants<F: Fn(String) -> Option<Jwt>>(
    header: Option<Seq<u8>>,
    jwt_from_token: F,
    roles: Seq<Role>,
    j: Jwt,
) -> bool {
    exists|t: String|
        bearer_token(header) == Some(t@) && #[trigger] jwt_from_token.ensures((t,), Some(j))
            && roles.contains(j.role)
}

/// Whether such a request may be refused: it carries no bearer token, or
/// `jwt_from_token` may refuse its token, or give claims of a role that is
/// not one of `roles`.
pub open spec fn refuses<F: Fn(String) -> Option<Jwt>>(
    header: Option<Seq<u8>>,
    jwt_from_token: F,
    roles: Seq<Role>,
) -> bool {
    bearer_token(header) is None || exists|t: String, v: Option<Jwt>|
        bearer_token(header) == Some(t@) && #[trigger] jwt_from_token.ensures((t,), v) && (v is None
            || !roles.contains(v->0.role))
}

/// The claims of a request that one of `roles` may make. The bearer token
/// is taken from the `Authorization` header and handed to `jwt_from_token`,
/// which gives its checked claims or `None`; a request without a token,
/// whose token is refused, or whose role is not one of `roles`, is answered
/// `403 Forbidden` with an empty body.
pub fn get_jwt<F: Fn(String) -> Option<Jwt>>(
    header: Option<&[u8]>,
    roles: &Vec<Role>,
    jwt_from_token: F,
) -> (r: Result<Jwt, Response>)
    requires
        forall|t: String| jwt_from_token.requires((t,)),
    ensures
        match r {
            Ok(j) => grants(header_bytes(header), jwt_from_token, roles@, j),
            Err(resp) => is_forbidden(resp) && refuses(header_bytes(header), jwt_from_token, roles@),
        },
{
    let token = match get_token_from_header(header) {
        Some(t) => t,
        None => return Err(Response::empty(Status::Forbidden)),
    };
    let ghost t = token;
    let jwt = match jwt_from_token(token) {
        Some(j) => j,
        None => {
            assert(jwt_from_token.ensures((t,), None::<Jwt>));
            return Err(Response::empty(Status::Forbidden));
        },
    };
    if !has_role(roles, jwt.role) {
        assert(jwt_from_token.ensures((t,), Some(jwt)));
        return Err(Response::empty(Status::Forbidden));
    }
    assert(jwt_from_token.ensures((t,), Some(jwt)));
    Ok(jwt)
}

} // verus!
