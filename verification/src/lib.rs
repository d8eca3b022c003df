//! Authorization, password hashing, token claims, statement building and
//! the decisions of the request handlers of a small geo-data web service.

pub mod auth;
pub mod gis;
pub mod hashing;
pub mod jwt;
pub mod location;
pub mod models;
pub mod response;
pub mod sql;
pub mod users;
