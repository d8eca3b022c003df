//! User requests: listings, login and registration.

use vstd::prelude::*;
use vstd::string::StringExecFns;
use crate::hashing::{
    argon2_phc_hash, can_hash, hash_pw, hashable, password_hash, password_matches, verify_pw,
};
use vstd::utf8::encode_utf8;
use crate::jwt::TokenPair;
use crate::models::{CreateUser, Role, User};
use crate::response::{Body, Response, Status};

verus! {

/// The answer to a listing of users: the users, or `500` with an empty body
/// where the database failed.
pub fn users_reply(found: Result<Vec<User>, ()>) -> (r: Response)
    ensures
        match found {
            Ok(us) => r.status == Status::Success && r.body == Body::Users(us),
            Err(_) => r.status == Status::InternalServerError && r.body is Empty,
        },
{
    match found {
        Ok(us) => Response { status: Status::Success, body: Body::Users(us) },
        Err(_) => Response::empty(Status::InternalServerError),
    }
}

/// The user that a login request names, where its password matches:
/// `stored` is that user as read from the database, or the message of the
/// failed read; a wrong password gives `wrong password`.
pub fn login_user(password: String, salt: &str, stored: Result<User, String>) -> (r: Result<User, String>)
    requires
        hashable(password@, salt@),
    ensures
        match stored {
            Err(e) => r == Err::<User, String>(e),
            Ok(u) => if password_matches(password@, salt@, Some(u.password@)) {
                r == Ok::<User, String>(u)
            } else {
                r matches Err(e) && e@ == "wrong password"@
            },
        },
        r is Ok <==> (stored matches Ok(u) && argon2_phc_hash(encode_utf8(password@), salt@) == Some(
            u.password@,
        )),
{
    match stored {
        Err(e) => Err(e),
        Ok(u) => {
            let hash = u.password.clone();
            if verify_pw(password, salt, Some(hash)) {
                Ok(u)
            } else {
                Err(String::from_str("wrong password"))
            }
        },
    }
}

/// `login_user` where the salt allows it: `None` where the password cannot
/// be hashed under `salt`.
pub fn try_login_user(password: String, salt: &str, stored: Result<User, String>) -> (r: Option<
    Result<User, String>,
>)
    ensures
        r is Some <==> hashable(password@, salt@),
        r matches Some(res) ==> match stored {
            Err(e) => res == Err::<User, String>(e),
            Ok(u) => if password_matches(password@, salt@, Some(u.password@)) {
                res == Ok::<User, String>(u)
            } else {
                res matches Err(e) && e@ == "wrong password"@
            },
        },
        r matches Some(res) ==> (res is Ok <==> (stored matches Ok(u) && argon2_phc_hash(
            encode_utf8(password@),
            salt@,
        ) == Some(u.password@))),
{
    if can_hash(&password, salt) {
        Some(login_user(password, salt, stored))
    } else {
        None
    }
}

/// The answer to a login that was refused: `403` with the message.
pub fn login_refused(message: String) -> (r: Response)
    ensures
        r.status == Status::Forbidden,
        r.body == Body::Message(message),
{
    Response { status: Status::Forbidden, body: Body::Message(message) }
}

/// The answer to a login once its tokens were signed: the pair, or `403`
/// with the signing error's message.
pub fn login_reply(pair: Result<TokenPair, String>) -> (r: Response)
    ensures
        match pair {
            Ok(p) => r.status == Status::Success && r.body == Body::Tokens(p),
            Err(e) => r.status == Status::Forbidden && r.body == Body::Message(e),
        },
{
    match pair {
        Ok(p) => Response { status: Status::Success, body: Body::Tokens(p) },
        Err(e) => login_refused(e),
    }
}

/// The role of a user being registered: the one asked for, else `USER`.
pub fn register_role(role: Option<Role>) -> (r: Role)
    ensures
        r == (match role {
            Some(x) => x,
            None => Role::USER,
        }),
{
    match role {
        Some(x) => x,
        None => Role::USER,
    }
}

/// The row that a registration stores: the name, the role, and the stored
/// form of the password.
pub struct NewUser {
    pub name: String,
    pub role: Role,
    pub password_hash: String,
}

/// The row that the registration `body` stores: its name, the role it asks
/// for (`USER` where it asks for none), and its password hashed under
/// `salt`.
pub fn register_user(body: CreateUser, salt: &str) -> (u: NewUser)
    requires
        hashable(body.password@, salt@),
    ensures
        u.name == body.name,
        u.role == (match body.role {
            Some(x) => x,
            None => Role::USER,
        }),
        u.password_hash@ == password_hash(body.password@, salt@),
        argon2_phc_hash(encode_utf8(body.password@), salt@) == Some(u.password_hash@),
{
    let CreateUser { name, role, password } = body;
    let password_hash = hash_pw(password, salt);
    NewUser { name, role: register_role(role), password_hash }
}

/// `register_user` where the salt allows it: `None` where the password
/// cannot be hashed under `salt`.
pub fn try_register_user(body: CreateUser, salt: &str) -> (r: Option<NewUser>)
    ensures
        r is Some <==> hashable(body.password@, salt@),
        r matches Some(u) ==> u.name == body.name && u.role == (match body.role {
            Some(x) => x,
            None => Role::USER,
        }) && u.password_hash@ == password_hash(body.password@, salt@) && argon2_phc_hash(
            encode_utf8(body.password@),
            salt@,
        ) == Some(u.password_hash@),
{
    if can_hash(&body.password, salt) {
        Some(register_user(body, salt))
    } else {
        None
    }
}

/// The answer to a registration, by the number of rows stored: none (the
/// name is taken) is `400` with `{"success": false, "msg": "user with name
/// exists"}`, some is `200` with an empty body, a database error is `500`
/// with an empty body.
pub fn register_reply(stored: Result<u64, ()>) -> (r: Response)
    ensures
        match stored {
            Ok(n) => if n == 0 {
                r.status == Status::BadRequest && match r.body {
                    Body::Outcome { success, msg } => !success && (msg matches Some(m) && m@
                        == "user with name exists"@),
                    _ => false,
                }
            } else {
                r.status == Status::Success && r.body is Empty
            },
            Err(_) => r.status == Status::InternalServerError && r.body is Empty,
        },
{
    match stored {
        Ok(n) => {
            if n == 0 {
                Response {
                    status: Status::BadRequest,
                    body: Body::Outcome {
                        success: false,
                        msg: Some(String::from_str("user with name exists")),
                    },
                }
            } else {
                Response::empty(Status::Success)
            }
        },
        Err(_) => Response::empty(Status::InternalServerError),
    }
}

} // verus!
