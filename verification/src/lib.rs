//! Authentication core: password hashing and checking, signed identity
//! tokens with a fixed lifetime, the bearer-token guard of protected
//! requests, and the decisions of the register, login and profile handlers.
//!
//! Everything here works on plain values. Reading the request, talking to the
//! database and writing the response are left to the caller, who hands in
//! what was read and acts on what comes back.

pub mod errors;
pub mod guard;
pub mod handlers;
pub mod model;
pub mod password;
pub mod text;
pub mod token;
pub mod users;
