//! The records that the service stores and receives. UUIDs are held as
//! their 128-bit values.

use vstd::prelude::*;

verus! {

/// What a user may do: `USER` works on its own locations, `ADMIN` on all.
#[derive(Clone, Copy, Debug, PartialEq, Eq, Structural)]
pub enum Role {
    USER,
    ADMIN,
}

/// A stored user; `password` is the PHC string of its Argon2 hash.
pub struct User {
    pub id: u128,
    pub name: String,
    pub role: Role,
    pub password: String,
}

/// The body of a registration request.
pub struct CreateUser {
    pub name: String,
    pub role: Option<Role>,
    pub password: String,
}

/// The body of a login request.
pub struct LoginRequest {
    pub name: String,
    pub password: String,
}

/// A stored location; `geo_data` is its GeoJSON text.
pub struct Location {
    pub id: u128,
    pub user_id: Option<u128>,
    pub title: String,
    pub description: Option<String>,
    pub geo_data: String,
}

} // verus!
