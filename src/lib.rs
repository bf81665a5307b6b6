//! Request handling for a small HTTP service over a table of users: routing by
//! method and path, reading the id and the body out of a raw request, and the
//! decisions and responses of the create, read, update and delete handlers.
//! Sockets and the database stay with the caller, which runs each command
//! that the library plans and hands back what came of it.

pub mod text;
pub mod request;
pub mod id;
pub mod user;
pub mod json;
pub mod response;
pub mod exchange;
