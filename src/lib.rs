//! A small user registry: validated user values, an in-memory repository
//! keyed by user id, and the request handling of a users CRUD service.

pub mod text;
pub mod id;
pub mod username;
pub mod user;
pub mod users_repo;
pub mod users_endpoints;
